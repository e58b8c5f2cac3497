//! Conversion of decoded game records into export records.
use vstd::prelude::*;

use crate::database::{spec_lookup_avatar_name, spec_lookup_text, Database};
use crate::models::{
    Character, CharacterV, LightCone, LightConeV, Material, MaterialV, Memosprite, Relic, RelicV,
    Skills, Substat, SubstatV, Traces, substats_view,
};
use crate::proto::{
    MultiPathAvatarInfo, ProtoCharacter, ProtoCharacterV, ProtoLightCone, ProtoMaterial, ProtoRelic, ProtoSkillTree,
    RelicAffix,
};
use crate::seqs::{filter_map, lemma_filter_map_step};
use crate::text::str_eq;
use crate::utils::{
    avatar_path_lookup, format_location, main_stat_to_export, slot_type_to_export,
    spec_avatar_path, spec_format_location, spec_main_stat, spec_slot_type, spec_sub_stat,
    sub_stat_to_export,
};

verus! {

// ---------------------------------------------------------------------------
// Materials
// ---------------------------------------------------------------------------

/// The export record of a material: absent when the item is not configured or
/// has no name in the text map.
pub open spec fn spec_export_material(db: &Database, p: ProtoMaterial) -> Option<MaterialV> {
    if db.item_config@.contains_key(p.tid) {
        let cfg = db.item_config@[p.tid];
        match cfg.item_name {
            Some(h) => match spec_lookup_text(db, h) {
                Some(name) => Some(MaterialV { id: cfg.id, name, count: p.num, expire_time: None }),
                None => None,
            },
            None => None,
        }
    } else {
        None
    }
}

/// Converts a proto material to an export material.
pub fn export_proto_material(db: &Database, proto: &ProtoMaterial) -> (r: Option<Material>)
    ensures
        match r {
            Some(m) => spec_export_material(db, *proto) == Some(m@),
            None => spec_export_material(db, *proto) is None,
        },
{
    let cfg = match db.item_config.get(&proto.tid) {
        Some(c) => c,
        None => return None,
    };
    let hash = match cfg.item_name {
        Some(h) => h,
        None => return None,
    };
    let name = match db.lookup_text(hash) {
        Some(n) => n,
        None => return None,
    };
    Some(Material { id: cfg.id, name, count: proto.num, expire_time: None })
}

// ---------------------------------------------------------------------------
// Relics
// ---------------------------------------------------------------------------

/// Whether converting substat `s` of a relic of `rarity` can proceed: either
/// its configuration is missing (it is skipped) or its property is known.
pub open spec fn substat_convertible(db: &Database, rarity: u32, s: RelicAffix) -> bool {
    db.relic_sub_affix_config@.contains_key((rarity, s.affix_id)) ==> spec_sub_stat(
        db.relic_sub_affix_config@[(rarity, s.affix_id)].property@,
    ) is Some
}

/// The export record of a substat: absent when it is not configured.
pub open spec fn spec_export_substat(db: &Database, rarity: u32, s: RelicAffix) -> Option<SubstatV> {
    if db.relic_sub_affix_config@.contains_key((rarity, s.affix_id)) {
        let cfg = db.relic_sub_affix_config@[(rarity, s.affix_id)];
        Some(SubstatV {
            key: spec_sub_stat(cfg.property@).unwrap(),
            count: s.cnt,
            step: s.step,
            base_value_bits: cfg.base_value_bits,
            step_value_bits: cfg.step_value_bits,
        })
    } else {
        None
    }
}

/// [`spec_export_substat`] for a fixed database and rarity.
pub open spec fn substat_fn(db: &Database, rarity: u32) -> spec_fn(RelicAffix) -> Option<SubstatV> {
    |s: RelicAffix| spec_export_substat(db, rarity, s)
}

/// Converts a relic substat to an export substat.
pub fn export_substat(db: &Database, rarity: u32, substat: &RelicAffix) -> (r: Option<Substat>)
    requires
        substat_convertible(db, rarity, *substat),
    ensures
        match r {
            Some(s) => spec_export_substat(db, rarity, *substat) == Some(s@),
            None => spec_export_substat(db, rarity, *substat) is None,
        },
{
    let cfg = match db.relic_sub_affix_config.get(&(rarity, substat.affix_id)) {
        Some(c) => c,
        None => return None,
    };
    let key = sub_stat_to_export(cfg.property.as_str());
    Some(Substat {
        key: String::from_str(key),
        count: substat.cnt,
        step: substat.step,
        base_value_bits: cfg.base_value_bits,
        step_value_bits: cfg.step_value_bits,
    })
}

/// Whether converting relic `p` can proceed: when its relic and set are
/// configured, its main stat must be configured and known, its slot type
/// known, and each substat convertible.
pub open spec fn relic_convertible(db: &Database, p: ProtoRelic) -> bool {
    let rc = db.relic_config@[p.tid];
    (db.relic_config@.contains_key(p.tid) && db.relic_set_config@.contains_key(rc.set_id)) ==> {
        &&& db.relic_main_affix_config@.contains_key((rc.main_affix_group, p.main_affix_id))
        &&& spec_main_stat(
            db.relic_main_affix_config@[(rc.main_affix_group, p.main_affix_id)].property@,
        ) is Some
        &&& spec_slot_type(rc.relic_type@) is Some
        &&& forall|i: int|
            0 <= i < p.sub_affix_list@.len() ==> substat_convertible(
                db,
                rc.max_level / 3,
                #[trigger] p.sub_affix_list@[i],
            )
    }
}

/// The export record of a relic: absent when the relic or its set is not
/// configured. The set name is empty when the text map lacks it; the rarity
/// is a third of the maximum level.
pub open spec fn spec_export_relic(db: &Database, p: ProtoRelic) -> Option<RelicV> {
    if db.relic_config@.contains_key(p.tid) && db.relic_set_config@.contains_key(
        db.relic_config@[p.tid].set_id,
    ) {
        let rc = db.relic_config@[p.tid];
        let set = db.relic_set_config@[rc.set_id];
        let ma = db.relic_main_affix_config@[(rc.main_affix_group, p.main_affix_id)];
        let rarity = rc.max_level / 3;
        Some(RelicV {
            set_id: rc.set_id,
            name: match spec_lookup_text(db, set.set_name) {
                Some(n) => n,
                None => Seq::empty(),
            },
            slot: spec_slot_type(rc.relic_type@).unwrap(),
            rarity: rarity as u32,
            level: p.level,
            mainstat: spec_main_stat(ma.property@).unwrap(),
            substats: filter_map(p.sub_affix_list@, substat_fn(db, rarity as u32)),
            reroll_substats: None,
            location: spec_format_location(p.equip_avatar_id),
            lock: p.is_protected,
            discard: p.is_discarded,
            uid: p.unique_id,
        })
    } else {
        None
    }
}

/// Converts a proto relic to an export relic.
pub fn export_proto_relic(db: &Database, proto: &ProtoRelic) -> (r: Option<Relic>)
    requires
        relic_convertible(db, *proto),
    ensures
        match r {
            Some(x) => spec_export_relic(db, *proto) == Some(x@),
            None => spec_export_relic(db, *proto) is None,
        },
{
    let relic_config = match db.relic_config.get(&proto.tid) {
        Some(c) => c,
        None => return None,
    };
    let set_id = relic_config.set_id;
    let set_config = match db.relic_set_config.get(&set_id) {
        Some(c) => c,
        None => return None,
    };
    let main_affix_config = db.relic_main_affix_config.get(
        &(relic_config.main_affix_group, proto.main_affix_id),
    ).unwrap();
    let set_name = match db.lookup_text(set_config.set_name) {
        Some(n) => n,
        None => String::new(),
    };
    let slot = slot_type_to_export(relic_config.relic_type.as_str());
    let rarity = relic_config.max_level / 3;
    let mainstat = String::from_str(main_stat_to_export(main_affix_config.property.as_str()));
    let location = format_location(proto.equip_avatar_id);

    let ghost f = substat_fn(db, rarity);
    let mut substats: Vec<Substat> = Vec::new();
    let mut i: usize = 0;
    while i < proto.sub_affix_list.len()
        invariant
            i <= proto.sub_affix_list@.len(),
            rarity == relic_config.max_level / 3,
            f == substat_fn(db, rarity),
            forall|j: int|
                0 <= j < proto.sub_affix_list@.len() ==> substat_convertible(
                    db,
                    rarity,
                    #[trigger] proto.sub_affix_list@[j],
                ),
            substats_view(substats@) == filter_map(proto.sub_affix_list@.take(i as int), f),
        decreases proto.sub_affix_list.len() - i,
    {
        let s = export_substat(db, rarity, &proto.sub_affix_list[i]);
        proof {
            lemma_filter_map_step(proto.sub_affix_list@, f, i as int);
        }
        match s {
            Some(s) => {
                substats.push(s);
                assert(substats_view(substats@) =~= filter_map(
                    proto.sub_affix_list@.take(i as int),
                    f,
                ).push(s@));
            },
            None => {},
        }
        i = i + 1;
    }
    assert(proto.sub_affix_list@.take(proto.sub_affix_list@.len() as int) =~= proto.sub_affix_list@);

    Some(Relic {
        set_id,
        name: set_name,
        slot,
        rarity,
        level: proto.level,
        mainstat,
        substats,
        reroll_substats: None,
        location,
        lock: proto.is_protected,
        discard: proto.is_discarded,
        _uid: proto.unique_id,
    })
}

// ---------------------------------------------------------------------------
// Light cones
// ---------------------------------------------------------------------------

/// The export record of a light cone: absent when it is not configured or has
/// no name in the text map.
pub open spec fn spec_export_light_cone(db: &Database, p: ProtoLightCone) -> Option<LightConeV> {
    if db.equipment_config@.contains_key(p.tid) {
        let cfg = db.equipment_config@[p.tid];
        match spec_lookup_text(db, cfg.equipment_name) {
            Some(name) => Some(LightConeV {
                id: cfg.equipment_id,
                name,
                level: p.level,
                ascension: p.promotion,
                superimposition: p.rank,
                location: spec_format_location(p.equip_avatar_id),
                lock: p.is_protected,
                uid: p.unique_id,
            }),
            None => None,
        }
    } else {
        None
    }
}

/// Converts a proto light cone to an export light cone.
pub fn export_proto_light_cone(db: &Database, proto: &ProtoLightCone) -> (r: Option<LightCone>)
    ensures
        match r {
            Some(x) => spec_export_light_cone(db, *proto) == Some(x@),
            None => spec_export_light_cone(db, *proto) is None,
        },
{
    let cfg = match db.equipment_config.get(&proto.tid) {
        Some(c) => c,
        None => return None,
    };
    let name = match db.lookup_text(cfg.equipment_name) {
        Some(n) => n,
        None => return None,
    };
    Some(LightCone {
        id: cfg.equipment_id,
        name,
        level: proto.level,
        ascension: proto.promotion,
        superimposition: proto.rank,
        location: format_location(proto.equip_avatar_id),
        lock: proto.is_protected,
        _uid: proto.unique_id,
    })
}

/// Light-cone law: an exported light cone carries the decoded light cone's
/// level, ascension (its promotion), superimposition (its rank), lock and
/// unique id unchanged, and the configured equipment id; it is exported
/// exactly when it is configured and its name is known.
pub proof fn law_light_cone_keeps_its_fields(db: &Database, p: ProtoLightCone)
    ensures
        spec_export_light_cone(db, p) is Some <==> (db.equipment_config@.contains_key(p.tid)
            && spec_lookup_text(db, db.equipment_config@[p.tid].equipment_name) is Some),
        spec_export_light_cone(db, p) matches Some(lc) ==> {
            &&& lc.level == p.level
            &&& lc.ascension == p.promotion
            &&& lc.superimposition == p.rank
            &&& lc.lock == p.is_protected
            &&& lc.uid == p.unique_id
            &&& lc.id == db.equipment_config@[p.tid].equipment_id
        },
{
}

/// Material law: an exported material counts as many as the decoded
/// material holds, under the configured item id, and has no expiry.
pub proof fn law_material_keeps_its_count(db: &Database, p: ProtoMaterial)
    ensures
        spec_export_material(db, p) matches Some(m) ==> {
            &&& m.count == p.num
            &&& m.id == db.item_config@[p.tid].id
            &&& m.expire_time is None
        },
        spec_export_material(db, p) is Some ==> db.item_config@.contains_key(p.tid),
{
}

/// Substat law: an exported substat carries the decoded roll count and step
/// and the configured base and step values, under the substat name of its
/// configured property.
pub proof fn law_substat_keeps_its_rolls(db: &Database, rarity: u32, a: RelicAffix)
    ensures
        spec_export_substat(db, rarity, a) is Some <==> db.relic_sub_affix_config@.contains_key((rarity, a.affix_id)),
        spec_export_substat(db, rarity, a) matches Some(x) ==> {
            let cfg = db.relic_sub_affix_config@[(rarity, a.affix_id)];
            &&& x.count == a.cnt
            &&& x.step == a.step
            &&& x.base_value_bits == cfg.base_value_bits
            &&& x.step_value_bits == cfg.step_value_bits
            &&& substat_convertible(db, rarity, a) ==> spec_sub_stat(cfg.property@) == Some(x.key)
        },
{
}

/// Relic law: an exported relic keeps the decoded level, lock, discard mark
/// and unique id; its set is the configured one, its rarity a third of the
/// configured maximum level, and its main stat the main-stat name of the
/// configured main affix's property.
pub proof fn law_relic_keeps_its_fields(db: &Database, p: ProtoRelic)
    ensures
        spec_export_relic(db, p) matches Some(r) ==> {
            let rc = db.relic_config@[p.tid];
            &&& r.level == p.level
            &&& r.lock == p.is_protected
            &&& r.discard == p.is_discarded
            &&& r.uid == p.unique_id
            &&& r.set_id == rc.set_id
            &&& r.rarity == rc.max_level / 3
            &&& relic_convertible(db, p) ==> spec_main_stat(
                db.relic_main_affix_config@[(rc.main_affix_group, p.main_affix_id)].property@,
            ) == Some(r.mainstat)
        },
{
}

// ---------------------------------------------------------------------------
// Skill trees
// ---------------------------------------------------------------------------

/// The number of a skill-tree anchor `"PointNN"` for NN in 1..=20, else 0.
pub open spec fn spec_anchor_number(s: Seq<char>) -> u32 {
    if s == "Point01"@ { 1 }
    else if s == "Point02"@ { 2 }
    else if s == "Point03"@ { 3 }
    else if s == "Point04"@ { 4 }
    else if s == "Point05"@ { 5 }
    else if s == "Point06"@ { 6 }
    else if s == "Point07"@ { 7 }
    else if s == "Point08"@ { 8 }
    else if s == "Point09"@ { 9 }
    else if s == "Point10"@ { 10 }
    else if s == "Point11"@ { 11 }
    else if s == "Point12"@ { 12 }
    else if s == "Point13"@ { 13 }
    else if s == "Point14"@ { 14 }
    else if s == "Point15"@ { 15 }
    else if s == "Point16"@ { 16 }
    else if s == "Point17"@ { 17 }
    else if s == "Point18"@ { 18 }
    else if s == "Point19"@ { 19 }
    else if s == "Point20"@ { 20 }
    else { 0 }
}

fn anchor_number(s: &str) -> (r: u32)
    ensures
        r == spec_anchor_number(s@),
{
    if str_eq(s, "Point01") { 1 }
    else if str_eq(s, "Point02") { 2 }
    else if str_eq(s, "Point03") { 3 }
    else if str_eq(s, "Point04") { 4 }
    else if str_eq(s, "Point05") { 5 }
    else if str_eq(s, "Point06") { 6 }
    else if str_eq(s, "Point07") { 7 }
    else if str_eq(s, "Point08") { 8 }
    else if str_eq(s, "Point09") { 9 }
    else if str_eq(s, "Point10") { 10 }
    else if str_eq(s, "Point11") { 11 }
    else if str_eq(s, "Point12") { 12 }
    else if str_eq(s, "Point13") { 13 }
    else if str_eq(s, "Point14") { 14 }
    else if str_eq(s, "Point15") { 15 }
    else if str_eq(s, "Point16") { 16 }
    else if str_eq(s, "Point17") { 17 }
    else if str_eq(s, "Point18") { 18 }
    else if str_eq(s, "Point19") { 19 }
    else if str_eq(s, "Point20") { 20 }
    else { 0 }
}

/// What a skill tree has told so far: skill levels, unlocked traces and
/// memosprite levels.
#[derive(Clone, Copy)]
pub struct TreeState {
    pub skills: Skills,
    pub traces: Traces,
    pub memosprite: Memosprite,
}

/// The state before any point is read: all levels zero, no trace unlocked.
pub open spec fn empty_tree_state() -> TreeState {
    TreeState {
        skills: Skills { basic: 0, skill: 0, ult: 0, talent: 0 },
        traces: Traces {
            ability_1: false,
            ability_2: false,
            ability_3: false,
            stat_1: false,
            stat_2: false,
            stat_3: false,
            stat_4: false,
            stat_5: false,
            stat_6: false,
            stat_7: false,
            stat_8: false,
            stat_9: false,
            stat_10: false,
        },
        memosprite: Memosprite { skill: 0, talent: 0 },
    }
}

/// The effect of anchor number `a` reached at `level`: points 1 to 4 set the
/// basic attack, skill, ultimate and talent levels; 5 (the technique) changes
/// nothing; 6 to 8 unlock the major traces, 9 to 18 the minor traces; 19 and
/// 20 set the memosprite's skill and talent levels.
pub open spec fn apply_anchor(st: TreeState, a: u32, level: u32) -> TreeState {
    let sk = st.skills;
    let tr = st.traces;
    let me = st.memosprite;
    if a == 1 { TreeState { skills: Skills { basic: level, ..sk }, ..st } }
    else if a == 2 { TreeState { skills: Skills { skill: level, ..sk }, ..st } }
    else if a == 3 { TreeState { skills: Skills { ult: level, ..sk }, ..st } }
    else if a == 4 { TreeState { skills: Skills { talent: level, ..sk }, ..st } }
    else if a == 6 { TreeState { traces: Traces { ability_1: true, ..tr }, ..st } }
    else if a == 7 { TreeState { traces: Traces { ability_2: true, ..tr }, ..st } }
    else if a == 8 { TreeState { traces: Traces { ability_3: true, ..tr }, ..st } }
    else if a == 9 { TreeState { traces: Traces { stat_1: true, ..tr }, ..st } }
    else if a == 10 { TreeState { traces: Traces { stat_2: true, ..tr }, ..st } }
    else if a == 11 { TreeState { traces: Traces { stat_3: true, ..tr }, ..st } }
    else if a == 12 { TreeState { traces: Traces { stat_4: true, ..tr }, ..st } }
    else if a == 13 { TreeState { traces: Traces { stat_5: true, ..tr }, ..st } }
    else if a == 14 { TreeState { traces: Traces { stat_6: true, ..tr }, ..st } }
    else if a == 15 { TreeState { traces: Traces { stat_7: true, ..tr }, ..st } }
    else if a == 16 { TreeState { traces: Traces { stat_8: true, ..tr }, ..st } }
    else if a == 17 { TreeState { traces: Traces { stat_9: true, ..tr }, ..st } }
    else if a == 18 { TreeState { traces: Traces { stat_10: true, ..tr }, ..st } }
    else if a == 19 { TreeState { memosprite: Memosprite { skill: level, ..me }, ..st } }
    else if a == 20 { TreeState { memosprite: Memosprite { talent: level, ..me }, ..st } }
    else { st }
}

/// The effect of one skill-tree point: points with id 0, and points whose
/// configuration is missing, change nothing.
pub open spec fn apply_point(db: &Database, st: TreeState, p: ProtoSkillTree) -> TreeState {
    if p.point_id == 0 || !db.avatar_skill_tree_config@.contains_key((p.point_id, p.level)) {
        st
    } else {
        apply_anchor(
            st,
            spec_anchor_number(db.avatar_skill_tree_config@[(p.point_id, p.level)].anchor@),
            p.level,
        )
    }
}

/// The state after reading all points of `s` in order.
pub open spec fn tree_state(db: &Database, s: Seq<ProtoSkillTree>) -> TreeState
    decreases s.len(),
{
    if s.len() == 0 {
        empty_tree_state()
    } else {
        apply_point(db, tree_state(db, s.drop_last()), s.last())
    }
}

/// The skills, traces and memosprite read from a skill tree; the memosprite
/// is absent when both its levels are zero.
pub open spec fn spec_export_skill_tree(db: &Database, s: Seq<ProtoSkillTree>) -> (
    Skills,
    Traces,
    Option<Memosprite>,
) {
    let st = tree_state(db, s);
    (st.skills, st.traces, st.memosprite.spec_if_present())
}

/// A point of the skill tree that is read: not point 0, and configured at
/// its level.
pub open spec fn configured_point(db: &Database, p: ProtoSkillTree) -> bool {
    p.point_id != 0 && db.avatar_skill_tree_config@.contains_key((p.point_id, p.level))
}

/// The anchor configured for a read point.
pub open spec fn point_anchor(db: &Database, p: ProtoSkillTree) -> Seq<char> {
    db.avatar_skill_tree_config@[(p.point_id, p.level)].anchor@
}

/// Skill-level law: reading a configured point anchored at "Point01",
/// "Point02", "Point03" or "Point04" sets the basic attack, skill, ultimate
/// or talent level, respectively, to the point's level; the other skill
/// levels, the traces and the memosprite stay as they were. A point that is
/// not read changes nothing.
pub proof fn law_skill_points_set_their_skill(db: &Database, st: TreeState, p: ProtoSkillTree)
    ensures
        !configured_point(db, p) ==> apply_point(db, st, p) == st,
        configured_point(db, p) && point_anchor(db, p) == "Point01"@ ==> apply_point(db, st, p) == (TreeState {
            skills: Skills { basic: p.level, skill: st.skills.skill, ult: st.skills.ult, talent: st.skills.talent },
            traces: st.traces,
            memosprite: st.memosprite,
        }),
        configured_point(db, p) && point_anchor(db, p) == "Point02"@ ==> apply_point(db, st, p) == (TreeState {
            skills: Skills { basic: st.skills.basic, skill: p.level, ult: st.skills.ult, talent: st.skills.talent },
            traces: st.traces,
            memosprite: st.memosprite,
        }),
        configured_point(db, p) && point_anchor(db, p) == "Point03"@ ==> apply_point(db, st, p) == (TreeState {
            skills: Skills { basic: st.skills.basic, skill: st.skills.skill, ult: p.level, talent: st.skills.talent },
            traces: st.traces,
            memosprite: st.memosprite,
        }),
        configured_point(db, p) && point_anchor(db, p) == "Point04"@ ==> apply_point(db, st, p) == (TreeState {
            skills: Skills { basic: st.skills.basic, skill: st.skills.skill, ult: st.skills.ult, talent: p.level },
            traces: st.traces,
            memosprite: st.memosprite,
        }),
{
    reveal_strlit("Point01");
    reveal_strlit("Point02");
    reveal_strlit("Point03");
    reveal_strlit("Point04");
    if configured_point(db, p) {
        let a = point_anchor(db, p);
        if a == "Point01"@ {
            assert(a[6] == '1');
        } else if a == "Point02"@ {
            assert(a[6] == '2');
        } else if a == "Point03"@ {
            assert(a[6] == '3');
        } else if a == "Point04"@ {
            assert(a[6] == '4');
        }
    }
}

/// Trace and memosprite law: reading a configured point anchored at
/// "Point06" to "Point08" unlocks the first to third major trace, "Point09"
/// to "Point18" the first to tenth minor trace, and "Point19" and "Point20"
/// set the memosprite's skill and talent levels to the point's level;
/// nothing else changes. "Point05" (the technique) changes nothing.
pub proof fn law_trace_points_unlock_their_trace(db: &Database, st: TreeState, p: ProtoSkillTree)
    ensures
        configured_point(db, p) && point_anchor(db, p) == "Point05"@ ==> apply_point(db, st, p) == st,
        configured_point(db, p) && point_anchor(db, p) == "Point06"@ ==> apply_point(db, st, p) == (TreeState {
            traces: Traces { ability_1: true, ..st.traces },
            ..st
        }),
        configured_point(db, p) && point_anchor(db, p) == "Point07"@ ==> apply_point(db, st, p) == (TreeState {
            traces: Traces { ability_2: true, ..st.traces },
            ..st
        }),
        configured_point(db, p) && point_anchor(db, p) == "Point08"@ ==> apply_point(db, st, p) == (TreeState {
            traces: Traces { ability_3: true, ..st.traces },
            ..st
        }),
        configured_point(db, p) && point_anchor(db, p) == "Point09"@ ==> apply_point(db, st, p) == (TreeState {
            traces: Traces { stat_1: true, ..st.traces },
            ..st
        }),
        configured_point(db, p) && point_anchor(db, p) == "Point10"@ ==> apply_point(db, st, p) == (TreeState {
            traces: Traces { stat_2: true, ..st.traces },
            ..st
        }),
        configured_point(db, p) && point_anchor(db, p) == "Point11"@ ==> apply_point(db, st, p) == (TreeState {
            traces: Traces { stat_3: true, ..st.traces },
            ..st
        }),
        configured_point(db, p) && point_anchor(db, p) == "Point12"@ ==> apply_point(db, st, p) == (TreeState {
            traces: Traces { stat_4: true, ..st.traces },
            ..st
        }),
        configured_point(db, p) && point_anchor(db, p) == "Point13"@ ==> apply_point(db, st, p) == (TreeState {
            traces: Traces { stat_5: true, ..st.traces },
            ..st
        }),
        configured_point(db, p) && point_anchor(db, p) == "Point14"@ ==> apply_point(db, st, p) == (TreeState {
            traces: Traces { stat_6: true, ..st.traces },
            ..st
        }),
        configured_point(db, p) && point_anchor(db, p) == "Point15"@ ==> apply_point(db, st, p) == (TreeState {
            traces: Traces { stat_7: true, ..st.traces },
            ..st
        }),
        configured_point(db, p) && point_anchor(db, p) == "Point16"@ ==> apply_point(db, st, p) == (TreeState {
            traces: Traces { stat_8: true, ..st.traces },
            ..st
        }),
        configured_point(db, p) && point_anchor(db, p) == "Point17"@ ==> apply_point(db, st, p) == (TreeState {
            traces: Traces { stat_9: true, ..st.traces },
            ..st
        }),
        configured_point(db, p) && point_anchor(db, p) == "Point18"@ ==> apply_point(db, st, p) == (TreeState {
            traces: Traces { stat_10: true, ..st.traces },
            ..st
        }),
        configured_point(db, p) && point_anchor(db, p) == "Point19"@ ==> apply_point(db, st, p) == (TreeState {
            memosprite: Memosprite { skill: p.level, talent: st.memosprite.talent },
            ..st
        }),
        configured_point(db, p) && point_anchor(db, p) == "Point20"@ ==> apply_point(db, st, p) == (TreeState {
            memosprite: Memosprite { skill: st.memosprite.skill, talent: p.level },
            ..st
        }),
{
    reveal_strlit("Point01");
    reveal_strlit("Point02");
    reveal_strlit("Point03");
    reveal_strlit("Point04");
    reveal_strlit("Point05");
    reveal_strlit("Point06");
    reveal_strlit("Point07");
    reveal_strlit("Point08");
    reveal_strlit("Point09");
    reveal_strlit("Point10");
    reveal_strlit("Point11");
    reveal_strlit("Point12");
    reveal_strlit("Point13");
    reveal_strlit("Point14");
    reveal_strlit("Point15");
    reveal_strlit("Point16");
    reveal_strlit("Point17");
    reveal_strlit("Point18");
    reveal_strlit("Point19");
    reveal_strlit("Point20");
    if configured_point(db, p) {
        let a = point_anchor(db, p);
        if a == "Point05"@ {
            assert(a[5] == '0' && a[6] == '5');
        } else if a == "Point06"@ {
            assert(a[5] == '0' && a[6] == '6');
        } else if a == "Point07"@ {
            assert(a[5] == '0' && a[6] == '7');
        } else if a == "Point08"@ {
            assert(a[5] == '0' && a[6] == '8');
        } else if a == "Point09"@ {
            assert(a[5] == '0' && a[6] == '9');
        } else if a == "Point10"@ {
            assert(a[5] == '1' && a[6] == '0');
        } else if a == "Point11"@ {
            assert(a[5] == '1' && a[6] == '1');
        } else if a == "Point12"@ {
            assert(a[5] == '1' && a[6] == '2');
        } else if a == "Point13"@ {
            assert(a[5] == '1' && a[6] == '3');
        } else if a == "Point14"@ {
            assert(a[5] == '1' && a[6] == '4');
        } else if a == "Point15"@ {
            assert(a[5] == '1' && a[6] == '5');
        } else if a == "Point16"@ {
            assert(a[5] == '1' && a[6] == '6');
        } else if a == "Point17"@ {
            assert(a[5] == '1' && a[6] == '7');
        } else if a == "Point18"@ {
            assert(a[5] == '1' && a[6] == '8');
        } else if a == "Point19"@ {
            assert(a[5] == '1' && a[6] == '9');
        } else if a == "Point20"@ {
            assert(a[5] == '2' && a[6] == '0');
        }
    }
}

/// The exported skills follow the last point read: when the last point of a
/// skill tree is configured and anchored at "Point03", the exported
/// ultimate level is that point's level, and the other skill levels are
/// those of the tree without it.
pub proof fn law_last_ult_point_sets_the_ult(db: &Database, s: Seq<ProtoSkillTree>)
    requires
        s.len() > 0,
        configured_point(db, s.last()),
        point_anchor(db, s.last()) == "Point03"@,
    ensures
        spec_export_skill_tree(db, s).0.ult == s.last().level,
        spec_export_skill_tree(db, s).0.basic == spec_export_skill_tree(db, s.drop_last()).0.basic,
        spec_export_skill_tree(db, s).0.skill == spec_export_skill_tree(db, s.drop_last()).0.skill,
        spec_export_skill_tree(db, s).0.talent == spec_export_skill_tree(db, s.drop_last()).0.talent,
{
    law_skill_points_set_their_skill(db, tree_state(db, s.drop_last()), s.last());
}

fn apply_anchor_exec(st: TreeState, a: u32, level: u32) -> (r: TreeState)
    ensures
        r == apply_anchor(st, a, level),
{
    let sk = st.skills;
    let tr = st.traces;
    let me = st.memosprite;
    if a == 1 { TreeState { skills: Skills { basic: level, ..sk }, ..st } }
    else if a == 2 { TreeState { skills: Skills { skill: level, ..sk }, ..st } }
    else if a == 3 { TreeState { skills: Skills { ult: level, ..sk }, ..st } }
    else if a == 4 { TreeState { skills: Skills { talent: level, ..sk }, ..st } }
    else if a == 6 { TreeState { traces: Traces { ability_1: true, ..tr }, ..st } }
    else if a == 7 { TreeState { traces: Traces { ability_2: true, ..tr }, ..st } }
    else if a == 8 { TreeState { traces: Traces { ability_3: true, ..tr }, ..st } }
    else if a == 9 { TreeState { traces: Traces { stat_1: true, ..tr }, ..st } }
    else if a == 10 { TreeState { traces: Traces { stat_2: true, ..tr }, ..st } }
    else if a == 11 { TreeState { traces: Traces { stat_3: true, ..tr }, ..st } }
    else if a == 12 { TreeState { traces: Traces { stat_4: true, ..tr }, ..st } }
    else if a == 13 { TreeState { traces: Traces { stat_5: true, ..tr }, ..st } }
    else if a == 14 { TreeState { traces: Traces { stat_6: true, ..tr }, ..st } }
    else if a == 15 { TreeState { traces: Traces { stat_7: true, ..tr }, ..st } }
    else if a == 16 { TreeState { traces: Traces { stat_8: true, ..tr }, ..st } }
    else if a == 17 { TreeState { traces: Traces { stat_9: true, ..tr }, ..st } }
    else if a == 18 { TreeState { traces: Traces { stat_10: true, ..tr }, ..st } }
    else if a == 19 { TreeState { memosprite: Memosprite { skill: level, ..me }, ..st } }
    else if a == 20 { TreeState { memosprite: Memosprite { talent: level, ..me }, ..st } }
    else { st }
}

fn apply_point_exec(db: &Database, st: TreeState, p: ProtoSkillTree) -> (r: TreeState)
    ensures
        r == apply_point(db, st, p),
{
    if p.point_id == 0 {
        return st;
    }
    match db.avatar_skill_tree_config.get(&(p.point_id, p.level)) {
        Some(cfg) => apply_anchor_exec(st, anchor_number(cfg.anchor.as_str()), p.level),
        None => st,
    }
}

/// Extracts skills, traces, and memosprite from a skill tree.
pub fn export_skill_tree(db: &Database, proto: &Vec<ProtoSkillTree>) -> (r: (
    Skills,
    Traces,
    Option<Memosprite>,
))
    ensures
        r == spec_export_skill_tree(db, proto@),
{
    let mut st = TreeState {
        skills: Skills { basic: 0, skill: 0, ult: 0, talent: 0 },
        traces: Traces {
            ability_1: false,
            ability_2: false,
            ability_3: false,
            stat_1: false,
            stat_2: false,
            stat_3: false,
            stat_4: false,
            stat_5: false,
            stat_6: false,
            stat_7: false,
            stat_8: false,
            stat_9: false,
            stat_10: false,
        },
        memosprite: Memosprite { skill: 0, talent: 0 },
    };
    let mut i: usize = 0;
    while i < proto.len()
        invariant
            i <= proto@.len(),
            st == tree_state(db, proto@.take(i as int)),
        decreases proto.len() - i,
    {
        assert(proto@.take(i + 1).drop_last() =~= proto@.take(i as int));
        st = apply_point_exec(db, st, proto[i]);
        i = i + 1;
    }
    assert(proto@.take(proto@.len() as int) =~= proto@);
    (st.skills, st.traces, st.memosprite.if_present())
}

// ---------------------------------------------------------------------------
// Characters
// ---------------------------------------------------------------------------

/// Whether converting the character with id `id` can proceed: when it has a
/// display name, its avatar configuration must exist (trailblazer ids get a
/// name without one).
pub open spec fn character_convertible(db: &Database, id: u32) -> bool {
    spec_lookup_avatar_name(db, id) is Some ==> db.avatar_config@.contains_key(id)
}

/// The export record of a character: absent when it has no display name or
/// no known path. The ability version starts at 0.
pub open spec fn spec_export_character(db: &Database, p: ProtoCharacterV) -> Option<CharacterV> {
    let id = p.base_avatar_id;
    match spec_lookup_avatar_name(db, id) {
        Some(name) => match spec_avatar_path(db, id) {
            Some(path) => {
                let (skills, traces, memosprite) = spec_export_skill_tree(db, p.avatar_skilltree_list);
                Some(CharacterV {
                    id,
                    name,
                    path,
                    level: p.level,
                    ascension: p.promotion,
                    eidolon: p.rank,
                    skills,
                    traces,
                    memosprite,
                    ability_version: 0,
                })
            },
            None => None,
        },
        None => None,
    }
}

/// Character law: an exported character keeps the decoded base avatar id,
/// level, ascension (its promotion) and eidolon (its rank); a multi-path
/// character keeps its id and eidolon and has level and ascension 0 until
/// its base avatar is known.
pub proof fn law_character_keeps_its_fields(db: &Database, p: ProtoCharacterV, m: MultiPathAvatarInfo)
    ensures
        spec_export_character(db, p) matches Some(c) ==> {
            &&& c.id == p.base_avatar_id
            &&& c.level == p.level
            &&& c.ascension == p.promotion
            &&& c.eidolon == p.rank
        },
        spec_export_multipath_character(db, m) matches Some(c) ==> {
            &&& c.id == m.avatar_id
            &&& c.level == 0
            &&& c.ascension == 0
            &&& c.eidolon == m.rank
        },
{
}

/// Converts a proto character to an export character.
pub fn export_proto_character(db: &Database, proto: &ProtoCharacter) -> (r: Option<Character>)
    requires
        character_convertible(db, proto.base_avatar_id),
    ensures
        match r {
            Some(x) => spec_export_character(db, proto@) == Some(x@),
            None => spec_export_character(db, proto@) is None,
        },
{
    let id = proto.base_avatar_id;
    let name = match db.lookup_avatar_name(id) {
        Some(n) => n,
        None => return None,
    };
    let path = match avatar_path_lookup(db, id) {
        Some(p) => String::from_str(p),
        None => return None,
    };
    let (skills, traces, memosprite) = export_skill_tree(db, &proto.avatar_skilltree_list);
    Some(Character {
        id,
        name,
        path,
        level: proto.level,
        ascension: proto.promotion,
        eidolon: proto.rank,
        skills,
        traces,
        memosprite,
        ability_version: 0,
    })
}

/// The export record of the path-specific part of a multi-path character:
/// level and ascension are 0 until the base avatar supplies them.
pub open spec fn spec_export_multipath_character(db: &Database, p: MultiPathAvatarInfo) -> Option<
    CharacterV,
> {
    let id = p.avatar_id;
    match spec_lookup_avatar_name(db, id) {
        Some(name) => match spec_avatar_path(db, id) {
            Some(path) => {
                let (skills, traces, memosprite) = spec_export_skill_tree(
                    db,
                    p.multipath_skilltree_list@,
                );
                Some(CharacterV {
                    id,
                    name,
                    path,
                    level: 0,
                    ascension: 0,
                    eidolon: p.rank,
                    skills,
                    traces,
                    memosprite,
                    ability_version: 0,
                })
            },
            None => None,
        },
        None => None,
    }
}

/// Converts a proto multipath character to an export character.
pub fn export_proto_multipath_character(db: &Database, proto: &MultiPathAvatarInfo) -> (r: Option<
    Character,
>)
    requires
        character_convertible(db, proto.avatar_id),
    ensures
        match r {
            Some(x) => spec_export_multipath_character(db, *proto) == Some(x@),
            None => spec_export_multipath_character(db, *proto) is None,
        },
{
    let id = proto.avatar_id;
    let name = match db.lookup_avatar_name(id) {
        Some(n) => n,
        None => return None,
    };
    let path = match avatar_path_lookup(db, id) {
        Some(p) => String::from_str(p),
        None => return None,
    };
    let (skills, traces, memosprite) = export_skill_tree(db, &proto.multipath_skilltree_list);
    Some(Character {
        id,
        name,
        path,
        level: 0,
        ascension: 0,
        eidolon: proto.rank,
        skills,
        traces,
        memosprite,
        ability_version: 0,
    })
}

} // verus!
