use std::collections::{BTreeMap, HashMap, HashSet};

use reliquary_archiver::converters::{export_proto_light_cone, export_proto_material, export_substat};
use reliquary_archiver::database::{
    AvatarConfig, Database, EquipmentConfig, ItemConfig, RelicSubAffixConfig,
};
use reliquary_archiver::models::{Memosprite, PityUpdate};
use reliquary_archiver::proto::{ProtoLightCone, ProtoMaterial, RelicAffix};
use reliquary_archiver::utils::{
    avatar_path_lookup, format_location, main_stat_to_export, slot_type_to_export, sub_stat_to_export,
    try_main_stat_to_export, try_slot_type_to_export, try_sub_stat_to_export,
};

fn database() -> &'static Database {
    let mut text_map = HashMap::new();
    text_map.insert(2, "Arrows".to_string());
    text_map.insert(3, "Credit".to_string());
    text_map.insert(4, "Arlan".to_string());
    let mut avatar_config = HashMap::new();
    avatar_config.insert(1008, AvatarConfig { avatar_id: 1008, avatar_name: 4, avatar_base_type: "Warrior".to_string(), rarity: "CombatPowerAvatarRarityType4".to_string() });
    avatar_config.insert(1009, AvatarConfig { avatar_id: 1009, avatar_name: 99, avatar_base_type: "Unknown".to_string(), rarity: "x".to_string() });
    avatar_config.insert(1010, AvatarConfig { avatar_id: 1010, avatar_name: 99, avatar_base_type: "Memory".to_string(), rarity: "x".to_string() });
    let mut equipment_config = HashMap::new();
    equipment_config.insert(20000, EquipmentConfig { equipment_id: 20000, equipment_name: 2, rarity: "CombatPowerLightconeRarity3".to_string() });
    equipment_config.insert(20001, EquipmentConfig { equipment_id: 20001, equipment_name: 77, rarity: "CombatPowerLightconeRarity3".to_string() });
    let mut item_config = HashMap::new();
    item_config.insert(2, ItemConfig { id: 2, item_name: Some(3) });
    let mut relic_sub_affix_config = BTreeMap::new();
    relic_sub_affix_config.insert((5, 7), RelicSubAffixConfig { group_id: 5, affix_id: 7, property: "SpeedDelta".to_string(), base_value_bits: 1, step_value_bits: 2 });
    Box::leak(Box::new(Database {
        avatar_config,
        avatar_skill_tree_config: BTreeMap::new(),
        equipment_config,
        item_config,
        multipath_avatar_config: HashMap::new(),
        relic_config: HashMap::new(),
        relic_set_config: HashMap::new(),
        relic_main_affix_config: BTreeMap::new(),
        relic_sub_affix_config,
        text_map,
        multipath_avatar_types: HashSet::new(),
        keys: HashMap::new(),
    }))
}

#[test]
fn locations() {
    assert_eq!(format_location(0), "");
    assert_eq!(format_location(1), "1");
    assert_eq!(format_location(1308), "1308");
    assert_eq!(format_location(4294967295), "4294967295");
}

#[test]
fn slot_names() {
    assert_eq!(slot_type_to_export("HEAD"), "Head");
    assert_eq!(slot_type_to_export("HAND"), "Hands");
    assert_eq!(slot_type_to_export("BODY"), "Body");
    assert_eq!(slot_type_to_export("FOOT"), "Feet");
    assert_eq!(slot_type_to_export("NECK"), "Planar Sphere");
    assert_eq!(slot_type_to_export("OBJECT"), "Link Rope");
    assert_eq!(try_slot_type_to_export("TAIL"), None);
}

#[test]
fn stat_names() {
    assert_eq!(main_stat_to_export("HPDelta"), "HP");
    assert_eq!(main_stat_to_export("HPAddedRatio"), "HP");
    assert_eq!(main_stat_to_export("CriticalDamageBase"), "CRIT DMG");
    assert_eq!(main_stat_to_export("ThunderAddedRatio"), "Lightning DMG Boost");
    assert_eq!(main_stat_to_export("SPRatioBase"), "Energy Regeneration Rate");
    assert_eq!(try_main_stat_to_export("DefenceDelta"), None);
    assert_eq!(sub_stat_to_export("HPAddedRatio"), "HP_");
    assert_eq!(sub_stat_to_export("DefenceDelta"), "DEF");
    assert_eq!(sub_stat_to_export("StatusResistanceBase"), "Effect RES_");
    assert_eq!(sub_stat_to_export("BreakDamageAddedRatioBase"), "Break Effect_");
    assert_eq!(try_sub_stat_to_export("SPRatioBase"), None);
}

#[test]
fn paths() {
    let db = database();
    assert_eq!(avatar_path_lookup(db, 1008), Some("Destruction"));
    assert_eq!(avatar_path_lookup(db, 1010), Some("Remembrance"));
    assert_eq!(avatar_path_lookup(db, 1009), None);
}

#[test]
fn avatar_names() {
    let db = database();
    assert_eq!(db.lookup_avatar_name(0), None);
    assert_eq!(db.lookup_avatar_name(8001).as_deref(), Some("Trailblazer"));
    assert_eq!(db.lookup_avatar_name(1008).as_deref(), Some("Arlan"));
    assert_eq!(db.lookup_avatar_name(1009), None);
    assert_eq!(db.lookup_avatar_name(1234), None);
    assert_eq!(db.lookup_text(3).as_deref(), Some("Credit"));
    assert_eq!(db.lookup_text(12), None);
}

#[test]
fn pity_counters() {
    let mut p = PityUpdate::AddPity { amount: 0 };
    p.increment();
    p.increment();
    assert!(matches!(p, PityUpdate::AddPity { amount: 2 }));
    p.reset(true);
    assert!(matches!(p, PityUpdate::ResetPity { amount: 0, set_guarantee: true }));
    p.increment();
    assert!(matches!(p, PityUpdate::ResetPity { amount: 1, set_guarantee: true }));
}

#[test]
fn memosprite_presence() {
    assert!(Memosprite { skill: 0, talent: 0 }.if_present().is_none());
    assert!(Memosprite { skill: 1, talent: 0 }.if_present().is_some());
    assert!(Memosprite { skill: 0, talent: 3 }.if_present().is_some());
}

#[test]
fn materials_need_a_configured_name() {
    let db = database();
    let m = export_proto_material(db, &ProtoMaterial { tid: 2, num: 7 }).expect("material");
    assert_eq!(m.id, 2);
    assert_eq!(m.name, "Credit");
    assert_eq!(m.count, 7);
    assert_eq!(m.expire_time, None);
    assert!(export_proto_material(db, &ProtoMaterial { tid: 3, num: 7 }).is_none());
}

#[test]
fn light_cones_need_a_name() {
    let db = database();
    let p = ProtoLightCone { tid: 20000, unique_id: 9, level: 1, rank: 1, promotion: 0, is_protected: true, equip_avatar_id: 0 };
    let lc = export_proto_light_cone(db, &p).expect("light cone");
    assert_eq!(lc.name, "Arrows");
    assert_eq!(lc.location, "");
    assert_eq!(lc._uid, 9);
    assert!(lc.lock);
    let unnamed = ProtoLightCone { tid: 20001, ..p };
    assert!(export_proto_light_cone(db, &unnamed).is_none());
}

#[test]
fn substats_by_rarity() {
    let db = database();
    let s = export_substat(db, 5, &RelicAffix { affix_id: 7, cnt: 3, step: 4 }).expect("substat");
    assert_eq!(s.key, "SPD");
    assert_eq!(s.count, 3);
    assert_eq!(s.step, 4);
    assert_eq!(s.base_value_bits, 1);
    assert_eq!(s.step_value_bits, 2);
    assert!(export_substat(db, 4, &RelicAffix { affix_id: 7, cnt: 3, step: 4 }).is_none());
}

#[test]
fn substat_names_extend_main_stat_names() {
    let both = [
        "HPDelta", "AttackDelta", "HPAddedRatio", "AttackAddedRatio", "DefenceAddedRatio", "CriticalChanceBase",
        "CriticalDamageBase", "SpeedDelta", "StatusProbabilityBase", "BreakDamageAddedRatioBase",
    ];
    for s in both {
        let main = main_stat_to_export(s);
        let sub = sub_stat_to_export(s);
        if s.ends_with("Delta") {
            assert_eq!(sub, main);
        } else {
            assert_eq!(sub, format!("{}_", main));
        }
    }
}
