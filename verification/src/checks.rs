//! Tests of the conditions under which handling a command cannot fail, for
//! callers to check before handing a command over.
use vstd::prelude::*;

use crate::command::spec_command_ok;
use crate::converters::{
    character_convertible, export_proto_multipath_character, relic_convertible, substat_convertible,
};
use crate::database::Database;
use crate::exporter::OptimizerExporter;
use crate::gacha::{banners_classifiable, grade_of, item_grade, pulls_gradable, STANDARD_BANNER_ID};
use crate::handlers::{
    characters_convertible, multipath_convertible, multipaths_convertible, sync_convertible,
};
use crate::proto::{GachaInfo, GachaItem, GameCommand, MultiPathAvatarInfo, ProtoCharacter, ProtoRelic};
use crate::store::relics_convertible;
use crate::utils::{try_main_stat_to_export, try_slot_type_to_export, try_sub_stat_to_export};

verus! {

/// Whether relic `p` converts without failing.
pub fn check_relic(db: &Database, p: &ProtoRelic) -> (r: bool)
    ensures
        r == relic_convertible(db, *p),
{
    let rc = match db.relic_config.get(&p.tid) {
        Some(c) => c,
        None => return true,
    };
    if db.relic_set_config.get(&rc.set_id).is_none() {
        return true;
    }
    let ma = match db.relic_main_affix_config.get(&(rc.main_affix_group, p.main_affix_id)) {
        Some(m) => m,
        None => return false,
    };
    if try_main_stat_to_export(ma.property.as_str()).is_none() {
        return false;
    }
    if try_slot_type_to_export(rc.relic_type.as_str()).is_none() {
        return false;
    }
    let rarity = rc.max_level / 3;
    let mut i: usize = 0;
    while i < p.sub_affix_list.len()
        invariant
            i <= p.sub_affix_list@.len(),
            rarity == rc.max_level / 3,
            db.relic_config@.contains_key(p.tid),
            *rc == db.relic_config@[p.tid],
            db.relic_set_config@.contains_key(rc.set_id),
            forall|j: int| 0 <= j < i ==> substat_convertible(db, rarity, #[trigger] p.sub_affix_list@[j]),
        decreases p.sub_affix_list.len() - i,
    {
        let s = p.sub_affix_list[i];
        match db.relic_sub_affix_config.get(&(rarity, s.affix_id)) {
            Some(cfg) => {
                if try_sub_stat_to_export(cfg.property.as_str()).is_none() {
                    assert(!substat_convertible(db, rarity, p.sub_affix_list@[i as int]));
                    return false;
                }
            },
            None => {},
        }
        i = i + 1;
    }
    true
}

/// Whether every relic of `list` converts without failing.
pub fn check_relics(db: &Database, list: &Vec<ProtoRelic>) -> (r: bool)
    ensures
        r == relics_convertible(db, list@),
{
    let mut i: usize = 0;
    while i < list.len()
        invariant
            i <= list@.len(),
            forall|j: int| 0 <= j < i ==> relic_convertible(db, #[trigger] list@[j]),
        decreases list.len() - i,
    {
        if !check_relic(db, &list[i]) {
            return false;
        }
        i = i + 1;
    }
    true
}

/// Whether the character with id `id` converts without failing.
pub fn check_character(db: &Database, id: u32) -> (r: bool)
    ensures
        r == character_convertible(db, id),
{
    id < 8000 || db.avatar_config.contains_key(&id)
}

/// Whether every character of `list` converts without failing.
pub fn check_characters(db: &Database, list: &Vec<ProtoCharacter>) -> (r: bool)
    ensures
        r == characters_convertible(db, list@),
{
    let mut i: usize = 0;
    while i < list.len()
        invariant
            i <= list@.len(),
            forall|j: int| 0 <= j < i ==> character_convertible(db, (#[trigger] list@[j]).base_avatar_id),
        decreases list.len() - i,
    {
        if !check_character(db, list[i].base_avatar_id) {
            return false;
        }
        i = i + 1;
    }
    true
}

/// Whether multi-path character `info` is ingested without failing.
pub fn check_multipath(db: &Database, info: &MultiPathAvatarInfo) -> (r: bool)
    ensures
        r == multipath_convertible(db, *info),
{
    if !check_character(db, info.avatar_id) {
        return false;
    }
    match export_proto_multipath_character(db, info) {
        Some(_) => db.multipath_avatar_config.contains_key(&info.avatar_id),
        None => true,
    }
}

/// Whether every multi-path character of `list` is ingested without failing.
pub fn check_multipaths(db: &Database, list: &Vec<MultiPathAvatarInfo>) -> (r: bool)
    ensures
        r == multipaths_convertible(db, list@),
{
    let mut i: usize = 0;
    while i < list.len()
        invariant
            i <= list@.len(),
            forall|j: int| 0 <= j < i ==> multipath_convertible(db, #[trigger] list@[j]),
        decreases list.len() - i,
    {
        if !check_multipath(db, &list[i]) {
            return false;
        }
        i = i + 1;
    }
    true
}

/// Whether every banner other than the standard one lists a prize.
pub fn check_banners(list: &Vec<GachaInfo>) -> (r: bool)
    ensures
        r == banners_classifiable(list@),
{
    let mut i: usize = 0;
    while i < list.len()
        invariant
            i <= list@.len(),
            forall|j: int|
                0 <= j < i && (#[trigger] list@[j]).gacha_id != STANDARD_BANNER_ID
                    ==> list@[j].prize_item_list@.len() > 0,
        decreases list.len() - i,
    {
        if list[i].gacha_id != STANDARD_BANNER_ID && list[i].prize_item_list.len() == 0 {
            return false;
        }
        i = i + 1;
    }
    true
}

/// Whether every pulled item has a known grade and the session is short
/// enough for the counters.
pub fn check_pulls(db: &Database, list: &Vec<GachaItem>) -> (r: bool)
    ensures
        r == pulls_gradable(db, list@),
{
    if list.len() >= 4294967295usize {
        return false;
    }
    let mut i: usize = 0;
    while i < list.len()
        invariant
            i <= list@.len(),
            forall|j: int| 0 <= j < i ==> item_grade(db, (#[trigger] list@[j]).item_id) is Some,
        decreases list.len() - i,
    {
        if grade_of(db, list[i].item_id).is_none() {
            return false;
        }
        i = i + 1;
    }
    true
}

impl OptimizerExporter {
    /// Whether reading `command` cannot fail in the current state.
    pub fn command_ok(&self, command: &GameCommand) -> (r: bool)
        ensures
            r == spec_command_ok(self.database, self@, *command),
    {
        let db = self.database;
        match command {
            GameCommand::GetBag(Some(b)) => check_relics(db, &b.relic_list),
            GameCommand::GetAvatarData(Some(d)) => check_characters(db, &d.avatar_list)
                && check_multipaths(db, &d.multi_path_avatar_info_list),
            GameCommand::GetGachaInfo(Some(g)) => check_banners(&g.gacha_info_list),
            GameCommand::DoGacha(Some(g)) => {
                proof {
                    assert(crate::collect::map_views(self.banners@).dom() =~= self.banners@.dom());
                }
                if self.banners.contains_key(&g.gacha_id) {
                    check_pulls(db, &g.gacha_item_list)
                } else {
                    true
                }
            },
            GameCommand::PlayerSync(Some(s)) => {
                let chars_ok = match &s.avatar_sync {
                    Some(list) => check_characters(db, list),
                    None => true,
                };
                check_relics(db, &s.relic_list) && chars_ok && check_multipaths(
                    db,
                    &s.multi_path_avatar_info_list,
                )
            },
            _ => true,
        }
    }
}

} // verus!
