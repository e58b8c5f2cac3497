//! The records of the optimizer export format and the live events that
//! accompany it.
use vstd::prelude::*;

verus! {

/// Amounts of the two gacha currencies.
#[derive(Clone, Copy, Debug, PartialEq, Eq, Structural)]
pub struct GachaFunds {
    pub stellar_jade: u32,
    pub oneric_shards: u32,
}

impl GachaFunds {
    /// Both amounts zero.
    pub fn zero() -> (r: GachaFunds)
        ensures
            r.stellar_jade == 0,
            r.oneric_shards == 0,
    {
        GachaFunds { stellar_jade: 0, oneric_shards: 0 }
    }
}

/// The kind of a gacha banner.
#[derive(Clone, Copy, Debug, PartialEq, Eq, Structural)]
pub enum BannerType {
    Character,
    LightCone,
    Standard,
}

/// What is known of a banner: the items on rate-up and its kind.
#[derive(Debug)]
pub struct BannerInfo {
    pub rate_up_item_list: Vec<u32>,
    pub banner_type: BannerType,
}

/// The abstract value of a [`BannerInfo`].
pub struct BannerInfoV {
    pub rate_up_item_list: Seq<u32>,
    pub banner_type: BannerType,
}

impl View for BannerInfo {
    type V = BannerInfoV;

    open spec fn view(&self) -> BannerInfoV {
        BannerInfoV { rate_up_item_list: self.rate_up_item_list@, banner_type: self.banner_type }
    }
}

/// How one pull session changes a pity counter.
#[derive(Clone, Copy, Debug, PartialEq, Eq, Structural)]
pub enum PityUpdate {
    /// The counter grows by `amount`.
    AddPity { amount: u32 },
    /// The counter was reset, then grew by `amount`; `set_guarantee` tells
    /// whether the next drop of that grade is guaranteed to be on rate-up.
    ResetPity { amount: u32, set_guarantee: bool },
}

impl PityUpdate {
    /// The amount carried by either variant.
    pub open spec fn amount(self) -> u32 {
        match self {
            PityUpdate::AddPity { amount } => amount,
            PityUpdate::ResetPity { amount, .. } => amount,
        }
    }

    /// `self` with its amount raised by one, the variant unchanged.
    pub open spec fn incremented(self) -> PityUpdate {
        match self {
            PityUpdate::AddPity { amount } => PityUpdate::AddPity { amount: (amount + 1) as u32 },
            PityUpdate::ResetPity { amount, set_guarantee } => PityUpdate::ResetPity {
                amount: (amount + 1) as u32,
                set_guarantee,
            },
        }
    }

    /// Counts one more pull that did not reset this counter.
    pub fn increment(&mut self)
        requires
            old(self).amount() < u32::MAX,
        ensures
            *final(self) == old(self).incremented(),
    {
        match self {
            PityUpdate::AddPity { amount } => *amount += 1,
            PityUpdate::ResetPity { amount, .. } => *amount += 1,
        }
    }

    /// Resets the counter, recording whether the next drop is guaranteed.
    pub fn reset(&mut self, guarantee: bool)
        ensures
            *final(self) == (PityUpdate::ResetPity { amount: 0, set_guarantee: guarantee }),
    {
        *self = PityUpdate::ResetPity { amount: 0, set_guarantee: guarantee };
    }
}

/// The outcome of one pull session on a banner.
#[derive(Debug)]
pub struct GachaResult {
    pub banner_id: u32,
    pub banner_type: BannerType,
    pub pity_4: PityUpdate,
    pub pity_5: PityUpdate,
    pub pull_results: Vec<u32>,
}

/// The abstract value of a [`GachaResult`].
pub struct GachaResultV {
    pub banner_id: u32,
    pub banner_type: BannerType,
    pub pity_4: PityUpdate,
    pub pity_5: PityUpdate,
    pub pull_results: Seq<u32>,
}

impl View for GachaResult {
    type V = GachaResultV;

    open spec fn view(&self) -> GachaResultV {
        GachaResultV {
            banner_id: self.banner_id,
            banner_type: self.banner_type,
            pity_4: self.pity_4,
            pity_5: self.pity_5,
            pull_results: self.pull_results@,
        }
    }
}

/// An inventory material and how many of it are held.
#[derive(Debug)]
pub struct Material {
    pub id: u32,
    pub name: String,
    pub count: u32,
    pub expire_time: Option<u64>,
}

/// The abstract value of a [`Material`].
pub struct MaterialV {
    pub id: u32,
    pub name: Seq<char>,
    pub count: u32,
    pub expire_time: Option<u64>,
}

impl View for Material {
    type V = MaterialV;

    open spec fn view(&self) -> MaterialV {
        MaterialV { id: self.id, name: self.name@, count: self.count, expire_time: self.expire_time }
    }
}

impl Clone for Material {
    fn clone(&self) -> (r: Self)
        ensures
            r@ == self@,
    {
        Material { id: self.id, name: self.name.clone(), count: self.count, expire_time: self.expire_time }
    }
}

/// A relic substat. Its numeric value is `count * base + step * step_value`
/// (times 100 for percentage stats), computed from the two configuration
/// values, which are kept as the bit patterns of their `f32` values.
#[derive(Debug)]
pub struct Substat {
    pub key: String,
    pub count: u32,
    pub step: u32,
    pub base_value_bits: u32,
    pub step_value_bits: u32,
}

/// The abstract value of a [`Substat`].
pub struct SubstatV {
    pub key: Seq<char>,
    pub count: u32,
    pub step: u32,
    pub base_value_bits: u32,
    pub step_value_bits: u32,
}

impl View for Substat {
    type V = SubstatV;

    open spec fn view(&self) -> SubstatV {
        SubstatV {
            key: self.key@,
            count: self.count,
            step: self.step,
            base_value_bits: self.base_value_bits,
            step_value_bits: self.step_value_bits,
        }
    }
}

impl Substat {
    /// Whether the stat is a percentage, shown scaled by 100: its key ends in `_`.
    pub open spec fn spec_is_percent(self) -> bool {
        self.key@.len() > 0 && self.key@.last() == '_'
    }
}

impl Clone for Substat {
    fn clone(&self) -> (r: Self)
        ensures
            r@ == self@,
    {
        Substat {
            key: self.key.clone(),
            count: self.count,
            step: self.step,
            base_value_bits: self.base_value_bits,
            step_value_bits: self.step_value_bits,
        }
    }
}

/// The views of a sequence of substats.
pub open spec fn substats_view(s: Seq<Substat>) -> Seq<SubstatV> {
    s.map_values(|x: Substat| x@)
}

/// Copies a list of substats.
pub fn clone_substats(v: &Vec<Substat>) -> (r: Vec<Substat>)
    ensures
        substats_view(r@) == substats_view(v@),
{
    let mut r: Vec<Substat> = Vec::new();
    let mut i: usize = 0;
    while i < v.len()
        invariant
            i <= v.len(),
            r@.len() == i,
            forall|j: int| 0 <= j < i ==> (#[trigger] r@[j])@ == v@[j]@,
        decreases v.len() - i,
    {
        r.push(v[i].clone());
        i = i + 1;
    }
    assert(substats_view(r@) =~= substats_view(v@));
    r
}

/// A relic in the export format.
#[derive(Debug)]
pub struct Relic {
    pub set_id: u32,
    pub name: String,
    pub slot: &'static str,
    pub rarity: u32,
    pub level: u32,
    pub mainstat: String,
    pub substats: Vec<Substat>,
    pub reroll_substats: Option<Vec<Substat>>,
    pub location: String,
    pub lock: bool,
    pub discard: bool,
    pub _uid: u32,
}

/// The abstract value of a [`Relic`].
pub struct RelicV {
    pub set_id: u32,
    pub name: Seq<char>,
    pub slot: Seq<char>,
    pub rarity: u32,
    pub level: u32,
    pub mainstat: Seq<char>,
    pub substats: Seq<SubstatV>,
    pub reroll_substats: Option<Seq<SubstatV>>,
    pub location: Seq<char>,
    pub lock: bool,
    pub discard: bool,
    pub uid: u32,
}

impl View for Relic {
    type V = RelicV;

    open spec fn view(&self) -> RelicV {
        RelicV {
            set_id: self.set_id,
            name: self.name@,
            slot: self.slot@,
            rarity: self.rarity,
            level: self.level,
            mainstat: self.mainstat@,
            substats: substats_view(self.substats@),
            reroll_substats: match self.reroll_substats {
                Some(v) => Some(substats_view(v@)),
                None => None,
            },
            location: self.location@,
            lock: self.lock,
            discard: self.discard,
            uid: self._uid,
        }
    }
}

impl Clone for Relic {
    fn clone(&self) -> (r: Self)
        ensures
            r@ == self@,
    {
        let reroll = match &self.reroll_substats {
            Some(v) => Some(clone_substats(v)),
            None => None,
        };
        Relic {
            set_id: self.set_id,
            name: self.name.clone(),
            slot: self.slot,
            rarity: self.rarity,
            level: self.level,
            mainstat: self.mainstat.clone(),
            substats: clone_substats(&self.substats),
            reroll_substats: reroll,
            location: self.location.clone(),
            lock: self.lock,
            discard: self.discard,
            _uid: self._uid,
        }
    }
}

/// A light cone in the export format.
#[derive(Debug)]
pub struct LightCone {
    pub id: u32,
    pub name: String,
    pub level: u32,
    pub ascension: u32,
    pub superimposition: u32,
    pub location: String,
    pub lock: bool,
    pub _uid: u32,
}

/// The abstract value of a [`LightCone`].
pub struct LightConeV {
    pub id: u32,
    pub name: Seq<char>,
    pub level: u32,
    pub ascension: u32,
    pub superimposition: u32,
    pub location: Seq<char>,
    pub lock: bool,
    pub uid: u32,
}

impl View for LightCone {
    type V = LightConeV;

    open spec fn view(&self) -> LightConeV {
        LightConeV {
            id: self.id,
            name: self.name@,
            level: self.level,
            ascension: self.ascension,
            superimposition: self.superimposition,
            location: self.location@,
            lock: self.lock,
            uid: self._uid,
        }
    }
}

impl Clone for LightCone {
    fn clone(&self) -> (r: Self)
        ensures
            r@ == self@,
    {
        LightCone {
            id: self.id,
            name: self.name.clone(),
            level: self.level,
            ascension: self.ascension,
            superimposition: self.superimposition,
            location: self.location.clone(),
            lock: self.lock,
            _uid: self._uid,
        }
    }
}

/// Skill levels of a character.
#[derive(Clone, Copy, Debug, PartialEq, Eq, Structural)]
pub struct Skills {
    pub basic: u32,
    pub skill: u32,
    pub ult: u32,
    pub talent: u32,
}

/// Which traces of a character are unlocked.
#[derive(Clone, Copy, Debug, PartialEq, Eq, Structural)]
pub struct Traces {
    pub ability_1: bool,
    pub ability_2: bool,
    pub ability_3: bool,
    pub stat_1: bool,
    pub stat_2: bool,
    pub stat_3: bool,
    pub stat_4: bool,
    pub stat_5: bool,
    pub stat_6: bool,
    pub stat_7: bool,
    pub stat_8: bool,
    pub stat_9: bool,
    pub stat_10: bool,
}

/// Skill levels of a character's memosprite.
#[derive(Clone, Copy, Debug, PartialEq, Eq, Structural)]
pub struct Memosprite {
    pub skill: u32,
    pub talent: u32,
}

impl Memosprite {
    /// `None` when both levels are zero (no memosprite), else `Some(self)`.
    pub open spec fn spec_if_present(self) -> Option<Memosprite> {
        if self.skill == 0 && self.talent == 0 {
            None
        } else {
            Some(self)
        }
    }

    /// Keeps the memosprite only if it has any skill level.
    pub fn if_present(self) -> (r: Option<Memosprite>)
        ensures
            r == self.spec_if_present(),
    {
        if self.skill == 0 && self.talent == 0 {
            None
        } else {
            Some(self)
        }
    }
}

/// A character in the export format.
#[derive(Debug)]
pub struct Character {
    pub id: u32,
    pub name: String,
    pub path: String,
    pub level: u32,
    pub ascension: u32,
    pub eidolon: u32,
    pub skills: Skills,
    pub traces: Traces,
    pub memosprite: Option<Memosprite>,
    pub ability_version: u32,
}

/// The abstract value of a [`Character`].
pub struct CharacterV {
    pub id: u32,
    pub name: Seq<char>,
    pub path: Seq<char>,
    pub level: u32,
    pub ascension: u32,
    pub eidolon: u32,
    pub skills: Skills,
    pub traces: Traces,
    pub memosprite: Option<Memosprite>,
    pub ability_version: u32,
}

impl View for Character {
    type V = CharacterV;

    open spec fn view(&self) -> CharacterV {
        CharacterV {
            id: self.id,
            name: self.name@,
            path: self.path@,
            level: self.level,
            ascension: self.ascension,
            eidolon: self.eidolon,
            skills: self.skills,
            traces: self.traces,
            memosprite: self.memosprite,
            ability_version: self.ability_version,
        }
    }
}

impl Clone for Character {
    fn clone(&self) -> (r: Self)
        ensures
            r@ == self@,
    {
        Character {
            id: self.id,
            name: self.name.clone(),
            path: self.path.clone(),
            level: self.level,
            ascension: self.ascension,
            eidolon: self.eidolon,
            skills: self.skills,
            traces: self.traces,
            memosprite: self.memosprite,
            ability_version: self.ability_version,
        }
    }
}

/// Export metadata: the account and the trailblazer's name.
#[derive(Clone, Copy, Debug)]
pub struct Metadata {
    pub uid: Option<u32>,
    pub trailblazer: Option<&'static str>,
}

/// A complete export in the optimizer format.
#[derive(Debug)]
pub struct Export {
    pub source: &'static str,
    pub build: &'static str,
    pub version: u32,
    pub metadata: Metadata,
    pub gacha: GachaFunds,
    pub materials: Vec<Material>,
    pub light_cones: Vec<LightCone>,
    pub relics: Vec<Relic>,
    pub characters: Vec<Character>,
}

/// The abstract value of an [`Export`].
pub struct ExportV {
    pub source: Seq<char>,
    pub build: Seq<char>,
    pub version: u32,
    pub uid: Option<u32>,
    pub trailblazer: Option<Seq<char>>,
    pub gacha: GachaFunds,
    pub materials: Seq<MaterialV>,
    pub light_cones: Seq<LightConeV>,
    pub relics: Seq<RelicV>,
    pub characters: Seq<CharacterV>,
}

/// The views of the items of a sequence.
pub open spec fn views<T: View>(s: Seq<T>) -> Seq<T::V> {
    s.map_values(|x: T| x@)
}

/// The view of an optional static string.
pub open spec fn opt_str_view(s: Option<&'static str>) -> Option<Seq<char>> {
    match s {
        Some(t) => Some(t@),
        None => None,
    }
}

impl View for Export {
    type V = ExportV;

    open spec fn view(&self) -> ExportV {
        ExportV {
            source: self.source@,
            build: self.build@,
            version: self.version,
            uid: self.metadata.uid,
            trailblazer: opt_str_view(self.metadata.trailblazer),
            gacha: self.gacha,
            materials: views(self.materials@),
            light_cones: views(self.light_cones@),
            relics: views(self.relics@),
            characters: views(self.characters@),
        }
    }
}

/// A live update sent to stream subscribers.
#[derive(Debug)]
pub enum OptimizerEvent {
    InitialScan(Export),
    GachaResult(GachaResult),
    UpdateGachaFunds(GachaFunds),
    UpdateMaterials(Vec<Material>),
    UpdateLightCones(Vec<LightCone>),
    UpdateRelics(Vec<Relic>),
    UpdateCharacters(Vec<Character>),
    DeleteRelics(Vec<u32>),
    DeleteLightCones(Vec<u32>),
}

/// The abstract value of an [`OptimizerEvent`].
pub enum OptimizerEventV {
    InitialScan(ExportV),
    GachaResult(GachaResultV),
    UpdateGachaFunds(GachaFunds),
    UpdateMaterials(Seq<MaterialV>),
    UpdateLightCones(Seq<LightConeV>),
    UpdateRelics(Seq<RelicV>),
    UpdateCharacters(Seq<CharacterV>),
    DeleteRelics(Seq<u32>),
    DeleteLightCones(Seq<u32>),
}

impl View for OptimizerEvent {
    type V = OptimizerEventV;

    open spec fn view(&self) -> OptimizerEventV {
        match self {
            OptimizerEvent::InitialScan(e) => OptimizerEventV::InitialScan(e@),
            OptimizerEvent::GachaResult(g) => OptimizerEventV::GachaResult(g@),
            OptimizerEvent::UpdateGachaFunds(f) => OptimizerEventV::UpdateGachaFunds(*f),
            OptimizerEvent::UpdateMaterials(v) => OptimizerEventV::UpdateMaterials(views(v@)),
            OptimizerEvent::UpdateLightCones(v) => OptimizerEventV::UpdateLightCones(views(v@)),
            OptimizerEvent::UpdateRelics(v) => OptimizerEventV::UpdateRelics(views(v@)),
            OptimizerEvent::UpdateCharacters(v) => OptimizerEventV::UpdateCharacters(views(v@)),
            OptimizerEvent::DeleteRelics(v) => OptimizerEventV::DeleteRelics(v@),
            OptimizerEvent::DeleteLightCones(v) => OptimizerEventV::DeleteLightCones(v@),
        }
    }
}

} // verus!

verus! {

/// Values that can be copied with the same view.
pub trait Duplicate: View + Sized {
    fn duplicate(&self) -> (r: Self)
        ensures
            r@ == self@,
    ;
}

impl Duplicate for Material {
    fn duplicate(&self) -> (r: Self) {
        self.clone()
    }
}

impl Duplicate for LightCone {
    fn duplicate(&self) -> (r: Self) {
        self.clone()
    }
}

impl Duplicate for Relic {
    fn duplicate(&self) -> (r: Self) {
        self.clone()
    }
}

impl Duplicate for Character {
    fn duplicate(&self) -> (r: Self) {
        self.clone()
    }
}

} // verus!
