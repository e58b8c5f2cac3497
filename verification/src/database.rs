//! Game configuration tables, the text map and the initial session keys.
use std::collections::{BTreeMap, HashMap, HashSet};

use vstd::prelude::*;

verus! {

/// A row of the avatar table.
#[derive(Debug)]
pub struct AvatarConfig {
    pub avatar_id: u32,
    /// Text-map hash of the avatar's name.
    pub avatar_name: i64,
    pub avatar_base_type: String,
    pub rarity: String,
}

/// A row of the skill-tree table, keyed by point and level.
#[derive(Debug)]
pub struct AvatarSkillTreeConfig {
    pub point_id: u32,
    pub level: u32,
    pub anchor: String,
}

/// A row of the light cone table.
#[derive(Debug)]
pub struct EquipmentConfig {
    pub equipment_id: u32,
    pub equipment_name: i64,
    pub rarity: String,
}

/// A row of the item table.
#[derive(Debug)]
pub struct ItemConfig {
    pub id: u32,
    pub item_name: Option<i64>,
}

/// A row of the multi-path avatar table.
#[derive(Debug)]
pub struct MultiplePathAvatarConfig {
    pub avatar_id: u32,
    pub base_avatar_id: u32,
}

/// A row of the relic table.
#[derive(Debug)]
pub struct RelicConfig {
    pub id: u32,
    pub set_id: u32,
    pub main_affix_group: u32,
    pub relic_type: String,
    pub max_level: u32,
}

/// A row of the relic set table.
#[derive(Debug)]
pub struct RelicSetConfig {
    pub set_id: u32,
    pub set_name: i64,
}

/// A row of the relic main stat table, keyed by group and affix.
#[derive(Debug)]
pub struct RelicMainAffixConfig {
    pub group_id: u32,
    pub affix_id: u32,
    pub property: String,
}

/// A row of the relic substat table, keyed by group and affix. The two
/// values are kept as the bit patterns of their `f32` values.
#[derive(Debug)]
pub struct RelicSubAffixConfig {
    pub group_id: u32,
    pub affix_id: u32,
    pub property: String,
    pub base_value_bits: u32,
    pub step_value_bits: u32,
}

/// Everything the exporter looks up.
pub struct Database {
    pub avatar_config: HashMap<u32, AvatarConfig>,
    pub avatar_skill_tree_config: BTreeMap<(u32, u32), AvatarSkillTreeConfig>,
    pub equipment_config: HashMap<u32, EquipmentConfig>,
    pub item_config: HashMap<u32, ItemConfig>,
    pub multipath_avatar_config: HashMap<u32, MultiplePathAvatarConfig>,
    pub relic_config: HashMap<u32, RelicConfig>,
    pub relic_set_config: HashMap<u32, RelicSetConfig>,
    pub relic_main_affix_config: BTreeMap<(u32, u32), RelicMainAffixConfig>,
    pub relic_sub_affix_config: BTreeMap<(u32, u32), RelicSubAffixConfig>,
    pub text_map: HashMap<i64, String>,
    /// Avatar ids that the protocol lists as multi-path avatar types.
    pub multipath_avatar_types: HashSet<u32>,
    pub keys: HashMap<u32, Vec<u8>>,
}

/// The text for `hash`, if the text map has it.
pub open spec fn spec_lookup_text(db: &Database, hash: i64) -> Option<Seq<char>> {
    if db.text_map@.contains_key(hash) {
        Some(db.text_map@[hash]@)
    } else {
        None
    }
}

/// The display name of an avatar: none for id 0, "Trailblazer" for the
/// trailblazer ids (8000 and up), else the text of its configured name.
pub open spec fn spec_lookup_avatar_name(db: &Database, avatar_id: u32) -> Option<Seq<char>> {
    if avatar_id == 0 {
        None
    } else if avatar_id >= 8000 {
        Some("Trailblazer"@)
    } else if db.avatar_config@.contains_key(avatar_id) {
        spec_lookup_text(db, db.avatar_config@[avatar_id].avatar_name)
    } else {
        None
    }
}

impl Database {
    /// Looks up the text for `hash` in the text map.
    pub fn lookup_text(&self, hash: i64) -> (r: Option<String>)
        ensures
            match r {
                Some(s) => spec_lookup_text(self, hash) == Some(s@),
                None => spec_lookup_text(self, hash) is None,
            },
    {
        match self.text_map.get(&hash) {
            Some(s) => Some(s.clone()),
            None => None,
        }
    }

    /// Looks up the display name of an avatar.
    pub fn lookup_avatar_name(&self, avatar_id: u32) -> (r: Option<String>)
        ensures
            match r {
                Some(s) => spec_lookup_avatar_name(self, avatar_id) == Some(s@),
                None => spec_lookup_avatar_name(self, avatar_id) is None,
            },
    {
        if avatar_id == 0 {
            return None;
        }
        if avatar_id >= 8000 {
            Some(String::from_str("Trailblazer"))
        } else {
            match self.avatar_config.get(&avatar_id) {
                Some(cfg) => self.lookup_text(cfg.avatar_name),
                None => None,
            }
        }
    }
}

} // verus!
