//! How each game command changes the exporter's state.
use std::collections::HashSet;

use vstd::prelude::*;
use vstd::std_specs::hash::spec_hash_keys_iter;
use vstd::std_specs::iter::IteratorSpec;

use crate::collect::map_views;
use crate::converters::{
    character_convertible, export_proto_character, export_proto_multipath_character,
    spec_export_character, spec_export_multipath_character,
};
use crate::database::{spec_lookup_avatar_name, Database};
use crate::exporter::{spec_export, ExporterState, OptimizerExporter};
use crate::models::{views, Character, CharacterV, GachaFunds, OptimizerEvent, OptimizerEventV};
use crate::proto::{
    GetAvatarDataScRsp, GetBagScRsp, MultiPathAvatarInfo, PlayerGetTokenScRsp, PlayerLoginScRsp,
    PlayerSyncScNotify, ProtoCharacter, ProtoCharacterV, SetAvatarEnhancedIdScRsp,
};
use crate::seqs::{filter_map, insert_all, lemma_take_to_set_step};
use crate::store::{
    light_cone_fn, light_cone_key, material_fn, material_key, relic_fn, relic_key,
    relics_convertible, remove_keys, store_light_cones, store_materials, store_relics,
};
use crate::text::str_eq;

verus! {

// ---------------------------------------------------------------------------
// Account and inventory
// ---------------------------------------------------------------------------

/// A token reply records the account id.
pub open spec fn spec_handle_token(st: ExporterState, token: PlayerGetTokenScRsp) -> ExporterState {
    ExporterState { uid: Some(token.uid), ..st }
}

/// A login reply records both currency amounts.
pub open spec fn spec_handle_login(st: ExporterState, login: PlayerLoginScRsp) -> ExporterState {
    ExporterState {
        gacha: GachaFunds {
            oneric_shards: login.basic_info.oneric_shard_count,
            stellar_jade: login.basic_info.stellar_jade_count,
        },
        ..st
    }
}

/// An inventory reply stores each convertible relic and light cone under its
/// unique id, and each convertible material under its item id, replacing
/// what was stored under the same key.
pub open spec fn spec_handle_inventory(db: &Database, st: ExporterState, bag: GetBagScRsp) -> ExporterState {
    ExporterState {
        relics: insert_all(st.relics, filter_map(bag.relic_list@, relic_fn(db)), relic_key()),
        light_cones: insert_all(
            st.light_cones,
            filter_map(bag.equipment_list@, light_cone_fn(db)),
            light_cone_key(),
        ),
        materials: insert_all(
            st.materials,
            filter_map(bag.material_list@, material_fn(db)),
            material_key(),
        ),
        ..st
    }
}

// ---------------------------------------------------------------------------
// Characters
// ---------------------------------------------------------------------------

/// The base avatar of a configured multi-path avatar.
pub open spec fn base_of(db: &Database, id: u32) -> u32 {
    db.multipath_avatar_config@[id].base_avatar_id
}

/// Multi-path character `id` is stored and its base avatar is known.
pub open spec fn resolvable(db: &Database, st: ExporterState, id: u32) -> bool {
    st.multipath_characters.contains_key(id) && st.multipath_base_avatars.contains_key(
        base_of(db, id),
    )
}

/// A multi-path character takes level and ascension from its base avatar.
pub open spec fn with_base_stats(c: CharacterV, base: ProtoCharacterV) -> CharacterV {
    CharacterV { level: base.level, ascension: base.promotion, ..c }
}

/// Resolving `id`: when it is resolvable, the stored character gets its base
/// avatar's level and ascension and `id` is no longer waiting.
pub open spec fn spec_resolve(db: &Database, st: ExporterState, id: u32) -> (ExporterState, Option<
    CharacterV,
>) {
    if resolvable(db, st, id) {
        let c = with_base_stats(
            st.multipath_characters[id],
            st.multipath_base_avatars[base_of(db, id)],
        );
        (
            ExporterState {
                multipath_characters: st.multipath_characters.insert(id, c),
                unresolved: st.unresolved.remove(id),
                ..st
            },
            Some(c),
        )
    } else {
        (st, None)
    }
}

/// Resolving every id of `ids`, in any order.
pub open spec fn spec_resolve_set(db: &Database, st: ExporterState, ids: Set<u32>) -> ExporterState {
    ExporterState {
        multipath_characters: Map::new(
            |k: u32| st.multipath_characters.contains_key(k),
            |k: u32|
                if ids.contains(k) && resolvable(db, st, k) {
                    with_base_stats(
                        st.multipath_characters[k],
                        st.multipath_base_avatars[base_of(db, k)],
                    )
                } else {
                    st.multipath_characters[k]
                },
        ),
        unresolved: st.unresolved.filter(|k: u32| !(ids.contains(k) && resolvable(db, st, k))),
        ..st
    }
}

/// Resolving every waiting multi-path character.
pub open spec fn spec_resolve_all(db: &Database, st: ExporterState) -> ExporterState {
    spec_resolve_set(db, st, st.unresolved)
}

/// Ingesting a character: one that cannot be converted changes nothing. A
/// multi-path base avatar is kept as a base, and every waiting multi-path
/// character is resolved against the bases; any other character is stored
/// under its id and returned.
pub open spec fn spec_ingest_character(db: &Database, st: ExporterState, p: ProtoCharacterV) -> (
    ExporterState,
    Option<CharacterV>,
) {
    match spec_export_character(db, p) {
        None => (st, None),
        Some(c) => if db.multipath_avatar_types@.contains(p.base_avatar_id) {
            (
                spec_resolve_all(
                    db,
                    ExporterState {
                        multipath_base_avatars: st.multipath_base_avatars.insert(p.base_avatar_id, p),
                        ..st
                    },
                ),
                None,
            )
        } else {
            (ExporterState { characters: st.characters.insert(c.id, c), ..st }, Some(c))
        },
    }
}

/// The trailblazer's name after seeing multi-path character `c`: its id's
/// parity tells Stelle (even) from Caelus (odd).
pub open spec fn trailblazer_after(st: ExporterState, c: CharacterV) -> Option<Seq<char>> {
    if c.name == "Trailblazer"@ {
        Some(if c.id % 2 == 0 { "Stelle"@ } else { "Caelus"@ })
    } else {
        st.trailblazer
    }
}

/// Ingesting a multi-path character: one that cannot be converted changes
/// nothing. Otherwise it is stored under its id (the trailblazer's name is
/// updated) and resolved; when its base avatar is not yet known it waits.
pub open spec fn spec_ingest_multipath(db: &Database, st: ExporterState, info: MultiPathAvatarInfo) -> (
    ExporterState,
    Option<CharacterV>,
) {
    match spec_export_multipath_character(db, info) {
        None => (st, None),
        Some(c) => {
            let st1 = ExporterState {
                multipath_characters: st.multipath_characters.insert(c.id, c),
                trailblazer: trailblazer_after(st, c),
                ..st
            };
            let (st2, r) = spec_resolve(db, st1, c.id);
            match r {
                Some(x) => (st2, Some(x)),
                None => (ExporterState { unresolved: st1.unresolved.insert(c.id), ..st1 }, None),
            }
        },
    }
}

/// Trailblazer law: ingesting a convertible multi-path character named
/// "Trailblazer" records the trailblazer's name from its id: "Caelus" for
/// an odd id, "Stelle" for an even one; any other multi-path character, or
/// one that cannot be converted, leaves the recorded name as it was. The
/// export then carries that name.
pub proof fn law_trailblazer_name_follows_id_parity(db: &Database, st: ExporterState, info: MultiPathAvatarInfo)
    ensures
        spec_export_multipath_character(db, info) is Some && spec_lookup_avatar_name(db, info.avatar_id) == Some(
            "Trailblazer"@,
        ) ==> {
            &&& info.avatar_id % 2 == 1 ==> spec_ingest_multipath(db, st, info).0.trailblazer == Some("Caelus"@)
            &&& info.avatar_id % 2 == 0 ==> spec_ingest_multipath(db, st, info).0.trailblazer == Some("Stelle"@)
            &&& spec_export(spec_ingest_multipath(db, st, info).0) matches Some(e)
                && e.trailblazer == spec_ingest_multipath(db, st, info).0.trailblazer
        },
        !(spec_export_multipath_character(db, info) is Some && spec_lookup_avatar_name(db, info.avatar_id)
            == Some("Trailblazer"@)) ==> spec_ingest_multipath(db, st, info).0.trailblazer == st.trailblazer,
{
    reveal_strlit("Trailblazer");
}

/// Ingesting characters in order, collecting what each returns.
pub open spec fn spec_ingest_characters(db: &Database, st: ExporterState, s: Seq<ProtoCharacterV>) -> (
    ExporterState,
    Seq<CharacterV>,
)
    decreases s.len(),
{
    if s.len() == 0 {
        (st, Seq::empty())
    } else {
        let (st1, out) = spec_ingest_characters(db, st, s.drop_last());
        let (st2, r) = spec_ingest_character(db, st1, s.last());
        (
            st2,
            match r {
                Some(c) => out.push(c),
                None => out,
            },
        )
    }
}

/// Ingesting multi-path characters in order, collecting what each returns.
pub open spec fn spec_ingest_multipaths(db: &Database, st: ExporterState, s: Seq<MultiPathAvatarInfo>) -> (
    ExporterState,
    Seq<CharacterV>,
)
    decreases s.len(),
{
    if s.len() == 0 {
        (st, Seq::empty())
    } else {
        let (st1, out) = spec_ingest_multipaths(db, st, s.drop_last());
        let (st2, r) = spec_ingest_multipath(db, st1, s.last());
        (
            st2,
            match r {
                Some(c) => out.push(c),
                None => out,
            },
        )
    }
}

/// The views of a sequence of decoded characters.
pub open spec fn proto_characters_view(s: Seq<ProtoCharacter>) -> Seq<ProtoCharacterV> {
    s.map_values(|p: ProtoCharacter| p@)
}

/// Ingesting `info` cannot fail: it converts, and when it yields a character
/// that character's multi-path configuration exists.
pub open spec fn multipath_convertible(db: &Database, info: MultiPathAvatarInfo) -> bool {
    &&& character_convertible(db, info.avatar_id)
    &&& spec_export_multipath_character(db, info) is Some
        ==> db.multipath_avatar_config@.contains_key(info.avatar_id)
}

/// Every character of `s` converts without failing.
pub open spec fn characters_convertible(db: &Database, s: Seq<ProtoCharacter>) -> bool {
    forall|i: int| 0 <= i < s.len() ==> character_convertible(db, (#[trigger] s[i]).base_avatar_id)
}

/// Every multi-path character of `s` is ingested without failing.
pub open spec fn multipaths_convertible(db: &Database, s: Seq<MultiPathAvatarInfo>) -> bool {
    forall|i: int| 0 <= i < s.len() ==> multipath_convertible(db, #[trigger] s[i])
}

/// A character reply ingests its characters, then its multi-path characters.
pub open spec fn spec_handle_characters(db: &Database, st: ExporterState, data: GetAvatarDataScRsp) -> ExporterState {
    let (st1, _) = spec_ingest_characters(db, st, proto_characters_view(data.avatar_list@));
    spec_ingest_multipaths(db, st1, data.multi_path_avatar_info_list@).0
}


// ---------------------------------------------------------------------------
// Ability versions and incremental updates
// ---------------------------------------------------------------------------

/// Switching a character's ability version: a stored character gets the new
/// version and is reported; an unknown character changes nothing and an
/// empty update is reported.
pub open spec fn spec_set_avatar_enhanced(st: ExporterState, rsp: SetAvatarEnhancedIdScRsp) -> (
    ExporterState,
    OptimizerEventV,
) {
    if st.characters.contains_key(rsp.growth_avatar_id) {
        let c = CharacterV {
            ability_version: rsp.skilltree_version,
            ..st.characters[rsp.growth_avatar_id]
        };
        (
            ExporterState { characters: st.characters.insert(rsp.growth_avatar_id, c), ..st },
            OptimizerEventV::UpdateCharacters(seq![c]),
        )
    } else {
        (st, OptimizerEventV::UpdateCharacters(Seq::empty()))
    }
}

/// The event reporting `s`, when `s` is not empty.
pub open spec fn event_if<T>(s: Seq<T>, e: OptimizerEventV) -> Seq<OptimizerEventV> {
    if s.len() > 0 {
        seq![e]
    } else {
        Seq::empty()
    }
}

/// The first part of an incremental update: converted relics, light cones
/// and materials are stored, and each non-empty kind is reported.
pub open spec fn spec_sync_items(db: &Database, st: ExporterState, sync: PlayerSyncScNotify) -> (
    ExporterState,
    Seq<OptimizerEventV>,
) {
    let relics = filter_map(sync.relic_list@, relic_fn(db));
    let light_cones = filter_map(sync.equipment_list@, light_cone_fn(db));
    let materials = filter_map(sync.material_list@, material_fn(db));
    (
        ExporterState {
            relics: insert_all(st.relics, relics, relic_key()),
            light_cones: insert_all(st.light_cones, light_cones, light_cone_key()),
            materials: insert_all(st.materials, materials, material_key()),
            ..st
        },
        event_if(relics, OptimizerEventV::UpdateRelics(relics))
            + event_if(light_cones, OptimizerEventV::UpdateLightCones(light_cones))
            + event_if(materials, OptimizerEventV::UpdateMaterials(materials)),
    )
}

/// The second part: new currency amounts are recorded and reported.
pub open spec fn spec_sync_funds(st: ExporterState, sync: PlayerSyncScNotify) -> (
    ExporterState,
    Seq<OptimizerEventV>,
) {
    match sync.basic_info {
        Some(b) => {
            let g = GachaFunds {
                oneric_shards: b.oneric_shard_count,
                stellar_jade: b.stellar_jade_count,
            };
            (ExporterState { gacha: g, ..st }, seq![OptimizerEventV::UpdateGachaFunds(g)])
        },
        None => (st, Seq::empty()),
    }
}

/// The third part: deleted relics and light cones are removed, and each
/// non-empty list of deletions is reported.
pub open spec fn spec_sync_deletions(st: ExporterState, sync: PlayerSyncScNotify) -> (
    ExporterState,
    Seq<OptimizerEventV>,
) {
    (
        ExporterState {
            relics: st.relics.remove_keys(sync.del_relic_list@.to_set()),
            light_cones: st.light_cones.remove_keys(sync.del_equipment_list@.to_set()),
            ..st
        },
        event_if(sync.del_relic_list@, OptimizerEventV::DeleteRelics(sync.del_relic_list@))
            + event_if(
                sync.del_equipment_list@,
                OptimizerEventV::DeleteLightCones(sync.del_equipment_list@),
            ),
    )
}

/// The last part: characters, then multi-path characters, are ingested, and
/// those returned are reported together.
pub open spec fn spec_sync_characters(db: &Database, st: ExporterState, sync: PlayerSyncScNotify) -> (
    ExporterState,
    Seq<OptimizerEventV>,
) {
    let (st1, chars1) = match sync.avatar_sync {
        Some(list) => spec_ingest_characters(db, st, proto_characters_view(list@)),
        None => (st, Seq::empty()),
    };
    let (st2, chars2) = spec_ingest_multipaths(db, st1, sync.multi_path_avatar_info_list@);
    let characters = chars1 + chars2;
    (st2, event_if(characters, OptimizerEventV::UpdateCharacters(characters)))
}

/// An incremental update: its items, currencies, deletions and characters,
/// in that order, with the events of each part in order.
pub open spec fn spec_player_sync(db: &Database, st: ExporterState, sync: PlayerSyncScNotify) -> (
    ExporterState,
    Seq<OptimizerEventV>,
) {
    let (st1, e1) = spec_sync_items(db, st, sync);
    let (st2, e2) = spec_sync_funds(st1, sync);
    let (st3, e3) = spec_sync_deletions(st2, sync);
    let (st4, e4) = spec_sync_characters(db, st3, sync);
    (st4, e1 + e2 + e3 + e4)
}

/// An incremental update can be applied without failing.
pub open spec fn sync_convertible(db: &Database, sync: PlayerSyncScNotify) -> bool {
    &&& relics_convertible(db, sync.relic_list@)
    &&& match sync.avatar_sync {
        Some(list) => characters_convertible(db, list@),
        None => true,
    }
    &&& multipaths_convertible(db, sync.multi_path_avatar_info_list@)
}

/// Collects the members of a set of ids.
fn ids_of(s: &HashSet<u32>) -> (r: Vec<u32>)
    ensures
        r@.to_set() == s@,
{
    let ghost all = spec_hash_keys_iter(s).remaining().map_values(|p: &u32| *p);
    let mut r: Vec<u32> = Vec::new();
    for x in it: s.iter()
        invariant
            it.seq().map_values(|p: &u32| *p) == all,
            r@ == all.take(it.index() as int),
    {
        r.push(*x);
        assert(all.take(it.index() + 1) =~= all.take(it.index() as int).push(*x));
    }
    assert(all.take(all.len() as int) =~= all);
    assert(all =~= spec_hash_keys_iter(s).remaining().unref());
    r
}

impl OptimizerExporter {
    /// Records the account id.
    pub fn handle_token(&mut self, token: PlayerGetTokenScRsp)
        ensures
            final(self)@ == spec_handle_token(old(self)@, token),
            final(self).database == old(self).database,
            old(self).wf() ==> final(self).wf(),
    {
        self.uid = Some(token.uid);
    }

    /// Records the currency amounts of the login reply.
    pub fn handle_login(&mut self, login: PlayerLoginScRsp)
        ensures
            final(self)@ == spec_handle_login(old(self)@, login),
            final(self).database == old(self).database,
            old(self).wf() ==> final(self).wf(),
    {
        self.gacha.oneric_shards = login.basic_info.oneric_shard_count;
        self.gacha.stellar_jade = login.basic_info.stellar_jade_count;
    }

    /// Stores the relics, light cones and materials of an inventory reply.
    pub fn handle_inventory(&mut self, bag: GetBagScRsp)
        requires
            relics_convertible(old(self).database, bag.relic_list@),
        ensures
            final(self)@ == spec_handle_inventory(old(self).database, old(self)@, bag),
            final(self).database == old(self).database,
            old(self).wf() ==> final(self).wf(),
    {
        let db = self.database;
        let _relics = store_relics(db, &mut self.relics, &bag.relic_list);
        let _light_cones = store_light_cones(db, &mut self.light_cones, &bag.equipment_list);
        let _materials = store_materials(db, &mut self.materials, &bag.material_list);
        assert(self@ =~= spec_handle_inventory(db, old(self)@, bag));
    }

    fn get_multipath_base_id(&self, avatar_id: u32) -> (r: u32)
        requires
            self.database.multipath_avatar_config@.contains_key(avatar_id),
        ensures
            r == base_of(self.database, avatar_id),
    {
        self.database.multipath_avatar_config.get(&avatar_id).unwrap().base_avatar_id
    }

    /// Gives multi-path character `character_id` its base avatar's level and
    /// ascension, if both are known.
    pub fn resolve_multipath_character(&mut self, character_id: u32) -> (r: Option<Character>)
        requires
            old(self).database.multipath_avatar_config@.contains_key(character_id),
        ensures
            final(self)@ == spec_resolve(old(self).database, old(self)@, character_id).0,
            match r {
                Some(c) => spec_resolve(old(self).database, old(self)@, character_id).1 == Some(c@),
                None => spec_resolve(old(self).database, old(self)@, character_id).1 is None,
            },
            final(self).database == old(self).database,
            old(self).wf() ==> final(self).wf(),
    {
        let base_avatar_id = self.get_multipath_base_id(character_id);
        let (level, promotion) = match self.multipath_base_avatars.get(&base_avatar_id) {
            Some(base) => (base.level, base.promotion),
            None => {
                proof {
                    assert(map_views(self.multipath_base_avatars@).dom() =~= self.multipath_base_avatars@.dom());
                }
                return None;
            },
        };
        let ghost mpc0 = self.multipath_characters@;
        let mut character = match self.multipath_characters.remove(&character_id) {
            Some(c) => c,
            None => {
                proof {
                    assert(self.multipath_characters@ =~= mpc0);
                    assert(map_views(self.multipath_characters@).dom() =~= self.multipath_characters@.dom());
                    assert(map_views(self.multipath_base_avatars@).dom() =~= self.multipath_base_avatars@.dom());
                }
                return None;
            },
        };
        character.level = level;
        character.ascension = promotion;
        let result = character.clone();
        self.multipath_characters.insert(character_id, character);
        self.unresolved_multipath_characters.remove(&character_id);
        proof {
            let st = old(self)@;
            assert(map_views(old(self).multipath_characters@).dom() =~= old(self).multipath_characters@.dom());
            assert(map_views(old(self).multipath_base_avatars@).dom() =~= old(self).multipath_base_avatars@.dom());
            assert(resolvable(self.database, st, character_id));
            assert(self@ =~= spec_resolve(self.database, st, character_id).0);
        }
        Some(result)
    }

    /// Resolves every waiting multi-path character whose base avatar is known.
    fn resolve_all(&mut self)
        requires
            old(self).wf(),
        ensures
            final(self)@ == spec_resolve_all(old(self).database, old(self)@),
            final(self).database == old(self).database,
            final(self).wf(),
    {
        let ids = ids_of(&self.unresolved_multipath_characters);
        let ghost st0 = self@;
        let ghost db = self.database;
        let mut i: usize = 0;
        assert(ids@.take(0).to_set() =~= Set::<u32>::empty());
        assert(self@ =~= spec_resolve_set(db, st0, ids@.take(0).to_set()));
        while i < ids.len()
            invariant
                i <= ids@.len(),
                self.database == db,
                st0 == old(self)@,
                db == old(self).database,
                ids@.to_set() == st0.unresolved,
                self.wf(),
                old(self).wf(),
                self@ == spec_resolve_set(db, st0, ids@.take(i as int).to_set()),
            decreases ids.len() - i,
        {
            let id = ids[i];
            assert(ids@.to_set().contains(id)) by {
                assert(ids@[i as int] == id);
            }
            let ghost before = self@;
            let _ = self.resolve_multipath_character(id);
            proof {
                let s1 = ids@.take(i as int).to_set();
                let s2 = ids@.take(i + 1).to_set();
                lemma_take_to_set_step(ids@, i as int);
                assert(resolvable(db, before, id) == resolvable(db, st0, id));
                assert(self@ =~= spec_resolve_set(db, st0, s2)) by {
                    assert(self@.multipath_characters =~= spec_resolve_set(db, st0, s2).multipath_characters);
                    assert(self@.unresolved =~= spec_resolve_set(db, st0, s2).unresolved);
                }
            }
            i = i + 1;
        }
        assert(ids@.take(ids@.len() as int) =~= ids@);
    }

    /// Converts a character and records it: a multi-path base avatar is kept
    /// as a base and resolves the waiting multi-path characters; any other
    /// character is stored and returned.
    pub fn ingest_character(&mut self, proto_character: &ProtoCharacter) -> (r: Option<Character>)
        requires
            old(self).wf(),
            character_convertible(old(self).database, proto_character.base_avatar_id),
        ensures
            final(self)@ == spec_ingest_character(old(self).database, old(self)@, proto_character@).0,
            match r {
                Some(c) => spec_ingest_character(old(self).database, old(self)@, proto_character@).1
                    == Some(c@),
                None => spec_ingest_character(old(self).database, old(self)@, proto_character@).1 is None,
            },
            final(self).database == old(self).database,
            final(self).wf(),
    {
        let db = self.database;
        let character = match export_proto_character(db, proto_character) {
            Some(c) => c,
            None => return None,
        };
        if db.multipath_avatar_types.contains(&proto_character.base_avatar_id) {
            let ghost st0 = self@;
            self.multipath_base_avatars.insert(proto_character.base_avatar_id, proto_character.clone());
            proof {
                assert(self@ =~= ExporterState {
                    multipath_base_avatars: st0.multipath_base_avatars.insert(
                        proto_character.base_avatar_id,
                        proto_character@,
                    ),
                    ..st0
                });
            }
            self.resolve_all();
            None
        } else {
            let ghost st0 = self@;
            self.characters.insert(character.id, character.clone());
            proof {
                assert(self@ =~= ExporterState {
                    characters: st0.characters.insert(character.id, character@),
                    ..st0
                });
            }
            Some(character)
        }
    }

    /// Converts and stores a multi-path character, noting the trailblazer's
    /// name; returns it if its base avatar is known, else leaves it waiting.
    pub fn ingest_multipath_character(&mut self, proto_multipath_character: &MultiPathAvatarInfo) -> (r:
        Option<Character>)
        requires
            old(self).wf(),
            multipath_convertible(old(self).database, *proto_multipath_character),
        ensures
            final(self)@ == spec_ingest_multipath(
                old(self).database,
                old(self)@,
                *proto_multipath_character,
            ).0,
            match r {
                Some(c) => spec_ingest_multipath(
                    old(self).database,
                    old(self)@,
                    *proto_multipath_character,
                ).1 == Some(c@),
                None => spec_ingest_multipath(
                    old(self).database,
                    old(self)@,
                    *proto_multipath_character,
                ).1 is None,
            },
            final(self).database == old(self).database,
            final(self).wf(),
    {
        let db = self.database;
        let character = match export_proto_multipath_character(db, proto_multipath_character) {
            Some(c) => c,
            None => return None,
        };
        let ghost st0 = self@;
        let ghost c = character@;
        let id = character.id;
        let is_trailblazer = str_eq(character.name.as_str(), "Trailblazer");
        self.multipath_characters.insert(id, character);
        if is_trailblazer {
            self.trailblazer = Some(
                if id % 2 == 0 {
                    "Stelle"
                } else {
                    "Caelus"
                },
            );
        }
        let ghost st1 = self@;
        proof {
            assert(st1 =~= ExporterState {
                multipath_characters: st0.multipath_characters.insert(c.id, c),
                trailblazer: trailblazer_after(st0, c),
                ..st0
            });
        }
        match self.resolve_multipath_character(id) {
            Some(resolved) => Some(resolved),
            None => {
                self.unresolved_multipath_characters.insert(id);
                proof {
                    assert(self@ =~= ExporterState { unresolved: st1.unresolved.insert(id), ..st1 });
                }
                None
            },
        }
    }

    /// Ingests characters in order; returns those ingested as plain
    /// characters.
    pub fn ingest_characters(&mut self, list: &Vec<ProtoCharacter>) -> (r: Vec<Character>)
        requires
            old(self).wf(),
            characters_convertible(old(self).database, list@),
        ensures
            final(self)@ == spec_ingest_characters(
                old(self).database,
                old(self)@,
                proto_characters_view(list@),
            ).0,
            crate::models::views(r@) == spec_ingest_characters(
                old(self).database,
                old(self)@,
                proto_characters_view(list@),
            ).1,
            final(self).database == old(self).database,
            final(self).wf(),
    {
        let ghost db = self.database;
        let ghost st0 = self@;
        let ghost s = proto_characters_view(list@);
        let mut out: Vec<Character> = Vec::new();
        let mut i: usize = 0;
        while i < list.len()
            invariant
                i <= list@.len(),
                self.database == db,
                db == old(self).database,
                st0 == old(self)@,
                s == proto_characters_view(list@),
                self.wf(),
                characters_convertible(db, list@),
                self@ == spec_ingest_characters(db, st0, s.take(i as int)).0,
                crate::models::views(out@) == spec_ingest_characters(db, st0, s.take(i as int)).1,
            decreases list.len() - i,
        {
            assert(s.take(i + 1).drop_last() =~= s.take(i as int));
            assert(s.take(i + 1).last() == list@[i as int]@);
            match self.ingest_character(&list[i]) {
                Some(c) => {
                    let ghost before = out@;
                    out.push(c);
                    assert(crate::models::views(out@) =~= crate::models::views(before).push(out@.last()@));
                },
                None => {},
            }
            i = i + 1;
        }
        assert(s.take(list@.len() as int) =~= s);
        out
    }

    /// Ingests multi-path characters in order; returns those resolved.
    pub fn ingest_multipath_characters(&mut self, list: &Vec<MultiPathAvatarInfo>) -> (r: Vec<Character>)
        requires
            old(self).wf(),
            multipaths_convertible(old(self).database, list@),
        ensures
            final(self)@ == spec_ingest_multipaths(old(self).database, old(self)@, list@).0,
            crate::models::views(r@) == spec_ingest_multipaths(old(self).database, old(self)@, list@).1,
            final(self).database == old(self).database,
            final(self).wf(),
    {
        let ghost db = self.database;
        let ghost st0 = self@;
        let mut out: Vec<Character> = Vec::new();
        let mut i: usize = 0;
        while i < list.len()
            invariant
                i <= list@.len(),
                self.database == db,
                db == old(self).database,
                st0 == old(self)@,
                self.wf(),
                multipaths_convertible(db, list@),
                self@ == spec_ingest_multipaths(db, st0, list@.take(i as int)).0,
                crate::models::views(out@) == spec_ingest_multipaths(db, st0, list@.take(i as int)).1,
            decreases list.len() - i,
        {
            assert(list@.take(i + 1).drop_last() =~= list@.take(i as int));
            match self.ingest_multipath_character(&list[i]) {
                Some(c) => {
                    let ghost before = out@;
                    out.push(c);
                    assert(crate::models::views(out@) =~= crate::models::views(before).push(out@.last()@));
                },
                None => {},
            }
            i = i + 1;
        }
        assert(list@.take(list@.len() as int) =~= list@);
        out
    }

    /// Ingests the characters of a character reply, then its multi-path
    /// characters.
    pub fn handle_characters(&mut self, characters: GetAvatarDataScRsp)
        requires
            old(self).wf(),
            characters_convertible(old(self).database, characters.avatar_list@),
            multipaths_convertible(old(self).database, characters.multi_path_avatar_info_list@),
        ensures
            final(self)@ == spec_handle_characters(old(self).database, old(self)@, characters),
            final(self).database == old(self).database,
            final(self).wf(),
    {
        let _ = self.ingest_characters(&characters.avatar_list);
        let _ = self.ingest_multipath_characters(&characters.multi_path_avatar_info_list);
    }

    /// Sets a stored character's ability version and reports it.
    pub fn handle_set_avatar_enhanced(&mut self, set_avatar_enhanced: SetAvatarEnhancedIdScRsp) -> (r:
        OptimizerEvent)
        ensures
            final(self)@ == spec_set_avatar_enhanced(old(self)@, set_avatar_enhanced).0,
            r@ == spec_set_avatar_enhanced(old(self)@, set_avatar_enhanced).1,
            final(self).database == old(self).database,
            old(self).wf() ==> final(self).wf(),
    {
        let id = set_avatar_enhanced.growth_avatar_id;
        let ghost st0 = self@;
        let ghost chars0 = self.characters@;
        let mut character = match self.characters.remove(&id) {
            Some(c) => c,
            None => {
                let empty: Vec<Character> = Vec::new();
                proof {
                    assert(self.characters@ =~= chars0);
                    assert(map_views(chars0).dom() =~= chars0.dom());
                    assert(self@ =~= st0);
                    assert(views(empty@) =~= Seq::<CharacterV>::empty());
                }
                return OptimizerEvent::UpdateCharacters(empty);
            },
        };
        character.ability_version = set_avatar_enhanced.skilltree_version;
        let reported = character.clone();
        self.characters.insert(id, character);
        let mut list: Vec<Character> = Vec::new();
        list.push(reported);
        proof {
            assert(map_views(chars0).dom() =~= chars0.dom());
            assert(self@ =~= spec_set_avatar_enhanced(st0, set_avatar_enhanced).0);
            assert(views(list@) =~= seq![list@[0]@]);
        }
        OptimizerEvent::UpdateCharacters(list)
    }

    fn sync_items(&mut self, sync: &PlayerSyncScNotify) -> (r: Vec<OptimizerEvent>)
        requires
            relics_convertible(old(self).database, sync.relic_list@),
        ensures
            final(self)@ == spec_sync_items(old(self).database, old(self)@, *sync).0,
            views(r@) == spec_sync_items(old(self).database, old(self)@, *sync).1,
            final(self).database == old(self).database,
            old(self).wf() ==> final(self).wf(),
    {
        let db = self.database;
        let mut events: Vec<OptimizerEvent> = Vec::new();
        let relics = store_relics(db, &mut self.relics, &sync.relic_list);
        let light_cones = store_light_cones(db, &mut self.light_cones, &sync.equipment_list);
        let materials = store_materials(db, &mut self.materials, &sync.material_list);
        let ghost ev_relics = event_if(views(relics@), OptimizerEventV::UpdateRelics(views(relics@)));
        let ghost ev_lcs = event_if(
            views(light_cones@),
            OptimizerEventV::UpdateLightCones(views(light_cones@)),
        );
        let ghost ev_mats = event_if(
            views(materials@),
            OptimizerEventV::UpdateMaterials(views(materials@)),
        );
        if relics.len() > 0 {
            events.push(OptimizerEvent::UpdateRelics(relics));
        }
        if light_cones.len() > 0 {
            events.push(OptimizerEvent::UpdateLightCones(light_cones));
        }
        if materials.len() > 0 {
            events.push(OptimizerEvent::UpdateMaterials(materials));
        }
        assert(views(events@) =~= ev_relics + ev_lcs + ev_mats);
        assert(self@ =~= spec_sync_items(db, old(self)@, *sync).0);
        events
    }

    fn sync_funds(&mut self, sync: &PlayerSyncScNotify) -> (r: Vec<OptimizerEvent>)
        ensures
            final(self)@ == spec_sync_funds(old(self)@, *sync).0,
            views(r@) == spec_sync_funds(old(self)@, *sync).1,
            final(self).database == old(self).database,
            old(self).wf() ==> final(self).wf(),
    {
        let mut events: Vec<OptimizerEvent> = Vec::new();
        match sync.basic_info {
            Some(basic_info) => {
                self.gacha.oneric_shards = basic_info.oneric_shard_count;
                self.gacha.stellar_jade = basic_info.stellar_jade_count;
                events.push(OptimizerEvent::UpdateGachaFunds(self.gacha));
                assert(views(events@) =~= spec_sync_funds(old(self)@, *sync).1);
            },
            None => {
                assert(views(events@) =~= spec_sync_funds(old(self)@, *sync).1);
            },
        }
        events
    }

    fn sync_deletions(&mut self, sync: &PlayerSyncScNotify) -> (r: Vec<OptimizerEvent>)
        ensures
            final(self)@ == spec_sync_deletions(old(self)@, *sync).0,
            views(r@) == spec_sync_deletions(old(self)@, *sync).1,
            final(self).database == old(self).database,
            old(self).wf() ==> final(self).wf(),
    {
        let mut events: Vec<OptimizerEvent> = Vec::new();
        remove_keys(&mut self.relics, &sync.del_relic_list);
        remove_keys(&mut self.light_cones, &sync.del_equipment_list);
        if sync.del_relic_list.len() > 0 {
            let list = sync.del_relic_list.clone();
            assert(list@ =~= sync.del_relic_list@);
            events.push(OptimizerEvent::DeleteRelics(list));
        }
        if sync.del_equipment_list.len() > 0 {
            let list = sync.del_equipment_list.clone();
            assert(list@ =~= sync.del_equipment_list@);
            events.push(OptimizerEvent::DeleteLightCones(list));
        }
        assert(views(events@) =~= spec_sync_deletions(old(self)@, *sync).1);
        assert(self@ =~= spec_sync_deletions(old(self)@, *sync).0);
        events
    }

    fn sync_characters(&mut self, sync: &PlayerSyncScNotify) -> (r: Vec<OptimizerEvent>)
        requires
            old(self).wf(),
            sync_convertible(old(self).database, *sync),
        ensures
            final(self)@ == spec_sync_characters(old(self).database, old(self)@, *sync).0,
            views(r@) == spec_sync_characters(old(self).database, old(self)@, *sync).1,
            final(self).database == old(self).database,
            final(self).wf(),
    {
        let mut events: Vec<OptimizerEvent> = Vec::new();
        let mut updated = match &sync.avatar_sync {
            Some(list) => self.ingest_characters(list),
            None => Vec::new(),
        };
        let ghost chars1 = views(updated@);
        let mut more = self.ingest_multipath_characters(&sync.multi_path_avatar_info_list);
        let ghost chars2 = views(more@);
        updated.append(&mut more);
        assert(views(updated@) =~= chars1 + chars2);
        if updated.len() > 0 {
            events.push(OptimizerEvent::UpdateCharacters(updated));
        }
        assert(views(events@) =~= spec_sync_characters(old(self).database, old(self)@, *sync).1);
        events
    }

    /// Applies an incremental update and returns the events it reports.
    pub fn handle_player_sync(&mut self, sync: PlayerSyncScNotify) -> (r: Vec<OptimizerEvent>)
        requires
            old(self).wf(),
            sync_convertible(old(self).database, sync),
        ensures
            final(self)@ == spec_player_sync(old(self).database, old(self)@, sync).0,
            views(r@) == spec_player_sync(old(self).database, old(self)@, sync).1,
            final(self).database == old(self).database,
            final(self).wf(),
    {
        let mut events = self.sync_items(&sync);
        let mut e2 = self.sync_funds(&sync);
        let mut e3 = self.sync_deletions(&sync);
        let mut e4 = self.sync_characters(&sync);
        let ghost v1 = views(events@);
        let ghost v2 = views(e2@);
        let ghost v3 = views(e3@);
        let ghost v4 = views(e4@);
        events.append(&mut e2);
        events.append(&mut e3);
        events.append(&mut e4);
        assert(views(events@) =~= v1 + v2 + v3 + v4);
        events
    }
}

} // verus!
