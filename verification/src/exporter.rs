//! The per-account exporter: the state gathered from the game's commands,
//! and the export built from it.
use std::collections::{BTreeMap, HashMap, HashSet};

use vstd::prelude::*;

use crate::collect::{map_views, values_in_order};
use crate::database::Database;
use crate::models::{
    opt_str_view, views, BannerInfo, BannerInfoV, Character, CharacterV, Export, ExportV, GachaFunds,
    LightCone, LightConeV, Material, MaterialV, Metadata, Relic, RelicV,
};
use crate::order::in_key_order;
use crate::proto::{ProtoCharacter, ProtoCharacterV};

verus! {

/// The name of this program, written into each export.
pub const SOURCE: &'static str = "reliquary_archiver";

/// The version of this program, written into each export.
pub const BUILD: &'static str = "0.1.0";

/// The version of the export format.
pub const FORMAT_VERSION: u32 = 4;

/// Everything the exporter has gathered about one account.
pub struct OptimizerExporter {
    pub database: &'static Database,
    pub initialized: bool,
    pub uid: Option<u32>,
    pub trailblazer: Option<&'static str>,
    pub banners: HashMap<u32, BannerInfo>,
    pub gacha: GachaFunds,
    pub materials: BTreeMap<u32, Material>,
    pub light_cones: BTreeMap<u32, LightCone>,
    pub relics: BTreeMap<u32, Relic>,
    pub characters: BTreeMap<u32, Character>,
    pub multipath_characters: BTreeMap<u32, Character>,
    pub multipath_base_avatars: HashMap<u32, ProtoCharacter>,
    pub unresolved_multipath_characters: HashSet<u32>,
}

/// The abstract state of an [`OptimizerExporter`].
#[verifier::ext_equal]
pub struct ExporterState {
    pub initialized: bool,
    pub uid: Option<u32>,
    pub trailblazer: Option<Seq<char>>,
    pub banners: Map<u32, BannerInfoV>,
    pub gacha: GachaFunds,
    pub materials: Map<u32, MaterialV>,
    pub light_cones: Map<u32, LightConeV>,
    pub relics: Map<u32, RelicV>,
    pub characters: Map<u32, CharacterV>,
    pub multipath_characters: Map<u32, CharacterV>,
    pub multipath_base_avatars: Map<u32, ProtoCharacterV>,
    pub unresolved: Set<u32>,
}

impl View for OptimizerExporter {
    type V = ExporterState;

    open spec fn view(&self) -> ExporterState {
        ExporterState {
            initialized: self.initialized,
            uid: self.uid,
            trailblazer: opt_str_view(self.trailblazer),
            banners: map_views(self.banners@),
            gacha: self.gacha,
            materials: map_views(self.materials@),
            light_cones: map_views(self.light_cones@),
            relics: map_views(self.relics@),
            characters: map_views(self.characters@),
            multipath_characters: map_views(self.multipath_characters@),
            multipath_base_avatars: map_views(self.multipath_base_avatars@),
            unresolved: self.unresolved_multipath_characters@,
        }
    }
}

/// The state of a fresh exporter, and after a new login: nothing recorded.
pub open spec fn empty_state() -> ExporterState {
    ExporterState {
        initialized: false,
        uid: None,
        trailblazer: None,
        banners: Map::empty(),
        gacha: GachaFunds { stellar_jade: 0, oneric_shards: 0 },
        materials: Map::empty(),
        light_cones: Map::empty(),
        relics: Map::empty(),
        characters: Map::empty(),
        multipath_characters: Map::empty(),
        multipath_base_avatars: Map::empty(),
        unresolved: Set::empty(),
    }
}

/// The state holds what an export needs: the trailblazer, the uid, and at
/// least one relic, character, multi-path character and light cone.
pub open spec fn spec_is_finishable(st: ExporterState) -> bool {
    &&& st.trailblazer is Some
    &&& st.uid is Some
    &&& !st.relics.is_empty()
    &&& !st.characters.is_empty()
    &&& !st.multipath_characters.is_empty()
    &&& !st.light_cones.is_empty()
}

/// Nothing an export would show has been recorded.
pub open spec fn spec_is_empty(st: ExporterState) -> bool {
    &&& st.trailblazer is None
    &&& st.uid is None
    &&& st.relics.is_empty()
    &&& st.characters.is_empty()
    &&& st.multipath_characters.is_empty()
    &&& st.light_cones.is_empty()
}

/// The export of a state: none when the state is empty; otherwise the
/// metadata and currencies, each stored material, light cone and relic once
/// in ascending key order, and the characters in ascending id order followed
/// by the multi-path characters in ascending id order.
pub open spec fn spec_export(st: ExporterState) -> Option<ExportV> {
    if spec_is_empty(st) {
        None
    } else {
        Some(ExportV {
            source: SOURCE@,
            build: BUILD@,
            version: FORMAT_VERSION,
            uid: st.uid,
            trailblazer: st.trailblazer,
            gacha: st.gacha,
            materials: in_key_order(st.materials),
            light_cones: in_key_order(st.light_cones),
            relics: in_key_order(st.relics),
            characters: in_key_order(st.characters) + in_key_order(st.multipath_characters),
        })
    }
}

impl OptimizerExporter {
    /// Every multi-path character waiting for its base avatar is configured,
    /// and an initialized exporter knows its account.
    pub open spec fn wf(&self) -> bool {
        &&& forall|id: u32|
            self.unresolved_multipath_characters@.contains(id)
                ==> #[trigger] self.database.multipath_avatar_config@.contains_key(id)
        &&& self.initialized ==> self.uid is Some
    }

    /// A fresh exporter that looks up configuration in `database`.
    pub fn new(database: &'static Database) -> (r: OptimizerExporter)
        ensures
            r@ == empty_state(),
            r.database == database,
            r.wf(),
    {
        let r = OptimizerExporter {
            database,
            initialized: false,
            uid: None,
            trailblazer: None,
            banners: HashMap::new(),
            gacha: GachaFunds::zero(),
            materials: BTreeMap::new(),
            light_cones: BTreeMap::new(),
            relics: BTreeMap::new(),
            characters: BTreeMap::new(),
            multipath_characters: BTreeMap::new(),
            multipath_base_avatars: HashMap::new(),
            unresolved_multipath_characters: HashSet::new(),
        };
        assert(r@ =~= empty_state()) by {
            assert(map_views(r.banners@) =~= Map::empty());
            assert(map_views(r.materials@) =~= Map::empty());
            assert(map_views(r.light_cones@) =~= Map::empty());
            assert(map_views(r.relics@) =~= Map::empty());
            assert(map_views(r.characters@) =~= Map::empty());
            assert(map_views(r.multipath_characters@) =~= Map::empty());
            assert(map_views(r.multipath_base_avatars@) =~= Map::empty());
        }
        r
    }

    /// Forgets everything recorded, as for a new login.
    pub fn reset(&mut self)
        ensures
            final(self)@ == empty_state(),
            final(self).database == old(self).database,
            final(self).wf(),
    {
        self.initialized = false;
        self.uid = None;
        self.trailblazer = None;
        self.banners.clear();
        self.gacha = GachaFunds::zero();
        self.materials.clear();
        self.light_cones.clear();
        self.relics.clear();
        self.characters.clear();
        self.multipath_characters.clear();
        self.multipath_base_avatars.clear();
        self.unresolved_multipath_characters.clear();
        assert(self@ =~= empty_state()) by {
            assert(map_views(self.banners@) =~= Map::empty());
            assert(map_views(self.materials@) =~= Map::empty());
            assert(map_views(self.light_cones@) =~= Map::empty());
            assert(map_views(self.relics@) =~= Map::empty());
            assert(map_views(self.characters@) =~= Map::empty());
            assert(map_views(self.multipath_characters@) =~= Map::empty());
            assert(map_views(self.multipath_base_avatars@) =~= Map::empty());
        }
    }

    /// Whether enough has been recorded to finish initialization.
    pub fn is_finishable(&self) -> (r: bool)
        ensures
            r == spec_is_finishable(self@),
    {
        proof {
            assert(map_views(self.relics@).dom() =~= self.relics@.dom());
            assert(map_views(self.characters@).dom() =~= self.characters@.dom());
            assert(map_views(self.multipath_characters@).dom() =~= self.multipath_characters@.dom());
            assert(map_views(self.light_cones@).dom() =~= self.light_cones@.dom());
        }
        self.trailblazer.is_some() && self.uid.is_some() && !self.relics.is_empty()
            && !self.characters.is_empty() && !self.multipath_characters.is_empty()
            && !self.light_cones.is_empty()
    }

    /// Whether nothing an export would show has been recorded.
    pub fn is_empty(&self) -> (r: bool)
        ensures
            r == spec_is_empty(self@),
    {
        proof {
            assert(map_views(self.relics@).dom() =~= self.relics@.dom());
            assert(map_views(self.characters@).dom() =~= self.characters@.dom());
            assert(map_views(self.multipath_characters@).dom() =~= self.multipath_characters@.dom());
            assert(map_views(self.light_cones@).dom() =~= self.light_cones@.dom());
        }
        self.trailblazer.is_none() && self.uid.is_none() && self.relics.is_empty()
            && self.characters.is_empty() && self.multipath_characters.is_empty()
            && self.light_cones.is_empty()
    }

    /// Whether initialization has finished.
    pub fn is_initialized(&self) -> (r: bool)
        ensures
            r == self@.initialized,
    {
        self.initialized
    }

    /// Builds an export of everything recorded, or `None` if nothing was.
    pub fn export(&self) -> (r: Option<Export>)
        ensures
            match r {
                Some(e) => spec_export(self@) == Some(e@),
                None => spec_export(self@) is None,
            },
    {
        if self.is_empty() {
            return None;
        }
        let materials = values_in_order(&self.materials);
        let light_cones = values_in_order(&self.light_cones);
        let relics = values_in_order(&self.relics);
        let mut characters = values_in_order(&self.characters);
        let mut multipath = values_in_order(&self.multipath_characters);
        let ghost c1 = characters@;
        let ghost c2 = multipath@;
        characters.append(&mut multipath);
        let e = Export {
            source: SOURCE,
            build: BUILD,
            version: FORMAT_VERSION,
            metadata: Metadata { uid: self.uid, trailblazer: self.trailblazer },
            gacha: self.gacha,
            materials,
            light_cones,
            relics,
            characters,
        };
        assert(views(e.characters@) =~= views(c1) + views(c2));
        assert(e@ =~= spec_export(self@).unwrap());
        Some(e)
    }
}

} // verus!
