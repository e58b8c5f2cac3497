use std::collections::{BTreeMap, HashMap, HashSet};

use reliquary_archiver::database::{
    AvatarConfig, Database, EquipmentConfig, ItemConfig, MultiplePathAvatarConfig, RelicConfig,
    RelicMainAffixConfig, RelicSetConfig, RelicSubAffixConfig,
};
use reliquary_archiver::exporter::{OptimizerExporter, BUILD, FORMAT_VERSION, SOURCE};
use reliquary_archiver::models::{BannerType, OptimizerEvent, PityUpdate};
use reliquary_archiver::proto::{
    DoGachaScRsp, GachaInfo, GachaItem, GameCommand, GetAvatarDataScRsp, GetBagScRsp, GetGachaInfoScRsp,
    MultiPathAvatarInfo, PlayerBasicInfo, PlayerGetTokenScRsp, PlayerLoginScRsp, PlayerSyncScNotify,
    ProtoCharacter, ProtoLightCone, ProtoMaterial, ProtoRelic, RelicAffix, SetAvatarEnhancedIdScRsp,
};

fn avatar(id: u32, name: i64, base: &str, rarity: &str) -> (u32, AvatarConfig) {
    (id, AvatarConfig { avatar_id: id, avatar_name: name, avatar_base_type: base.to_string(), rarity: rarity.to_string() })
}

fn database() -> &'static Database {
    let mut text_map = HashMap::new();
    text_map.insert(1, "Musketeer of Wild Wheat".to_string());
    text_map.insert(2, "Arrows".to_string());
    text_map.insert(3, "Credit".to_string());
    text_map.insert(4, "Arlan".to_string());
    text_map.insert(6, "Night on the Milky Way".to_string());
    text_map.insert(7, "Seele".to_string());

    let avatar_config: HashMap<u32, AvatarConfig> = vec![
        avatar(1008, 4, "Warrior", "CombatPowerAvatarRarityType4"),
        avatar(1102, 7, "Rogue", "CombatPowerAvatarRarityType5"),
        avatar(8001, 0, "Warrior", "CombatPowerAvatarRarityType5"),
        avatar(8002, 0, "Warrior", "CombatPowerAvatarRarityType5"),
    ]
    .into_iter()
    .collect();

    let mut equipment_config = HashMap::new();
    equipment_config.insert(20000, EquipmentConfig { equipment_id: 20000, equipment_name: 2, rarity: "CombatPowerLightconeRarity3".to_string() });
    equipment_config.insert(23000, EquipmentConfig { equipment_id: 23000, equipment_name: 6, rarity: "CombatPowerLightconeRarity5".to_string() });

    let mut item_config = HashMap::new();
    item_config.insert(2, ItemConfig { id: 2, item_name: Some(3) });
    item_config.insert(9, ItemConfig { id: 9, item_name: None });

    let mut multipath_avatar_config = HashMap::new();
    multipath_avatar_config.insert(8002, MultiplePathAvatarConfig { avatar_id: 8002, base_avatar_id: 8001 });

    let mut relic_config = HashMap::new();
    relic_config.insert(61011, RelicConfig { id: 61011, set_id: 101, main_affix_group: 1, relic_type: "HEAD".to_string(), max_level: 15 });

    let mut relic_set_config = HashMap::new();
    relic_set_config.insert(101, RelicSetConfig { set_id: 101, set_name: 1 });

    let mut relic_main_affix_config = BTreeMap::new();
    relic_main_affix_config.insert((1, 1), RelicMainAffixConfig { group_id: 1, affix_id: 1, property: "HPDelta".to_string() });

    let mut relic_sub_affix_config = BTreeMap::new();
    relic_sub_affix_config.insert(
        (5, 1),
        RelicSubAffixConfig { group_id: 5, affix_id: 1, property: "CriticalChanceBase".to_string(), base_value_bits: 0x3d04_1893, step_value_bits: 0x3c84_1893 },
    );

    let mut multipath_avatar_types = HashSet::new();
    multipath_avatar_types.insert(8001);

    Box::leak(Box::new(Database {
        avatar_config,
        avatar_skill_tree_config: BTreeMap::new(),
        equipment_config,
        item_config,
        multipath_avatar_config,
        relic_config,
        relic_set_config,
        relic_main_affix_config,
        relic_sub_affix_config,
        text_map,
        multipath_avatar_types,
        keys: HashMap::new(),
    }))
}

fn relic(unique_id: u32, equip: u32) -> ProtoRelic {
    ProtoRelic {
        tid: 61011,
        unique_id,
        level: 15,
        main_affix_id: 1,
        is_protected: true,
        is_discarded: false,
        equip_avatar_id: equip,
        sub_affix_list: vec![RelicAffix { affix_id: 1, cnt: 2, step: 3 }],
    }
}

fn light_cone(unique_id: u32) -> ProtoLightCone {
    ProtoLightCone { tid: 20000, unique_id, level: 80, rank: 5, promotion: 6, is_protected: false, equip_avatar_id: 1008 }
}

fn character(id: u32, level: u32) -> ProtoCharacter {
    ProtoCharacter { base_avatar_id: id, level, promotion: 6, rank: 1, avatar_skilltree_list: vec![] }
}

fn read(e: &mut OptimizerExporter, cmd: GameCommand) -> Vec<OptimizerEvent> {
    assert!(e.command_ok(&cmd));
    e.read_command(cmd)
}

fn initialize(e: &mut OptimizerExporter) -> Vec<OptimizerEvent> {
    let mut events = Vec::new();
    events.extend(read(e, GameCommand::PlayerGetToken(Some(PlayerGetTokenScRsp { uid: 700123 }))));
    events.extend(read(
        e,
        GameCommand::PlayerLogin(Some(PlayerLoginScRsp { basic_info: PlayerBasicInfo { oneric_shard_count: 60, stellar_jade_count: 1600 } })),
    ));
    events.extend(read(
        e,
        GameCommand::GetBag(Some(GetBagScRsp {
            relic_list: vec![relic(30, 1008), relic(10, 0)],
            equipment_list: vec![light_cone(5)],
            material_list: vec![ProtoMaterial { tid: 2, num: 1000 }, ProtoMaterial { tid: 9, num: 1 }],
        })),
    ));
    events.extend(read(
        e,
        GameCommand::GetAvatarData(Some(GetAvatarDataScRsp {
            avatar_list: vec![character(1008, 50), character(8001, 70)],
            multi_path_avatar_info_list: vec![MultiPathAvatarInfo { avatar_id: 8002, rank: 2, multipath_skilltree_list: vec![] }],
        })),
    ));
    events
}

#[test]
fn fresh_exporter_exports_nothing() {
    let e = OptimizerExporter::new(database());
    assert!(e.is_empty());
    assert!(!e.is_initialized());
    assert!(e.export().is_none());
    assert!(e.initial_event().is_none());
}

#[test]
fn full_login_initializes_and_reports_one_initial_scan() {
    let mut e = OptimizerExporter::new(database());
    let events = initialize(&mut e);
    assert!(e.is_initialized());
    assert_eq!(events.len(), 1);
    match &events[0] {
        OptimizerEvent::InitialScan(export) => {
            assert_eq!(export.metadata.uid, Some(700123));
            assert_eq!(export.relics.len(), 2);
        }
        other => panic!("unexpected event {:?}", other),
    }
    assert!(matches!(e.initial_event(), Some(OptimizerEvent::InitialScan(_))));
}

#[test]
fn export_lists_items_in_key_order_with_converted_fields() {
    let mut e = OptimizerExporter::new(database());
    initialize(&mut e);
    let export = e.export().expect("export");
    assert_eq!(export.source, SOURCE);
    assert_eq!(export.source, "reliquary_archiver");
    assert_eq!(export.build, BUILD);
    assert_eq!(export.version, FORMAT_VERSION);
    assert_eq!(export.metadata.trailblazer, Some("Stelle"));
    assert_eq!(export.gacha.stellar_jade, 1600);
    assert_eq!(export.gacha.oneric_shards, 60);

    let ids: Vec<u32> = export.relics.iter().map(|r| r._uid).collect();
    assert_eq!(ids, vec![10, 30]);
    let r = &export.relics[1];
    assert_eq!(r.set_id, 101);
    assert_eq!(r.name, "Musketeer of Wild Wheat");
    assert_eq!(r.slot, "Head");
    assert_eq!(r.rarity, 5);
    assert_eq!(r.level, 15);
    assert_eq!(r.mainstat, "HP");
    assert_eq!(r.location, "1008");
    assert_eq!(export.relics[0].location, "");
    assert!(r.lock);
    assert!(!r.discard);
    assert_eq!(r.substats.len(), 1);
    assert_eq!(r.substats[0].key, "CRIT Rate_");
    assert_eq!(r.substats[0].count, 2);
    assert_eq!(r.substats[0].step, 3);
    assert_eq!(r.substats[0].base_value_bits, 0x3d04_1893);

    assert_eq!(export.light_cones.len(), 1);
    let lc = &export.light_cones[0];
    assert_eq!(lc.name, "Arrows");
    assert_eq!(lc.superimposition, 5);
    assert_eq!(lc.ascension, 6);
    assert_eq!(lc.location, "1008");

    // The material without a name is left out.
    assert_eq!(export.materials.len(), 1);
    assert_eq!(export.materials[0].name, "Credit");
    assert_eq!(export.materials[0].count, 1000);

    // Characters first, then the multi-path characters.
    let chars: Vec<u32> = export.characters.iter().map(|c| c.id).collect();
    assert_eq!(chars, vec![1008, 8002]);
    assert_eq!(export.characters[0].name, "Arlan");
    assert_eq!(export.characters[0].path, "Destruction");
    let tb = &export.characters[1];
    assert_eq!(tb.name, "Trailblazer");
    // Level and ascension come from the base avatar.
    assert_eq!(tb.level, 70);
    assert_eq!(tb.ascension, 6);
    assert_eq!(tb.eidolon, 2);
}

#[test]
fn events_wait_for_initialization() {
    let mut e = OptimizerExporter::new(database());
    read(&mut e, GameCommand::PlayerGetToken(Some(PlayerGetTokenScRsp { uid: 1 })));
    let events = read(
        &mut e,
        GameCommand::SetAvatarEnhancedId(Some(SetAvatarEnhancedIdScRsp { growth_avatar_id: 1008, skilltree_version: 2 })),
    );
    assert!(events.is_empty());
}

#[test]
fn sync_reports_updates_and_deletes_after_initialization() {
    let mut e = OptimizerExporter::new(database());
    initialize(&mut e);
    let events = read(
        &mut e,
        GameCommand::PlayerSync(Some(PlayerSyncScNotify {
            relic_list: vec![relic(40, 0)],
            equipment_list: vec![],
            material_list: vec![],
            basic_info: Some(PlayerBasicInfo { oneric_shard_count: 1, stellar_jade_count: 2 }),
            del_relic_list: vec![10],
            del_equipment_list: vec![5],
            avatar_sync: None,
            multi_path_avatar_info_list: vec![],
        })),
    );
    assert_eq!(events.len(), 4);
    assert!(matches!(&events[0], OptimizerEvent::UpdateRelics(v) if v.len() == 1 && v[0]._uid == 40));
    assert!(matches!(&events[1], OptimizerEvent::UpdateGachaFunds(f) if f.stellar_jade == 2 && f.oneric_shards == 1));
    assert!(matches!(&events[2], OptimizerEvent::DeleteRelics(v) if v == &vec![10]));
    assert!(matches!(&events[3], OptimizerEvent::DeleteLightCones(v) if v == &vec![5]));
    let export = e.export().unwrap();
    let ids: Vec<u32> = export.relics.iter().map(|r| r._uid).collect();
    assert_eq!(ids, vec![30, 40]);
    assert!(export.light_cones.is_empty());
    // Still initialized.
    assert!(e.is_initialized());
}

#[test]
fn enhanced_id_updates_the_ability_version() {
    let mut e = OptimizerExporter::new(database());
    initialize(&mut e);
    let events = read(
        &mut e,
        GameCommand::SetAvatarEnhancedId(Some(SetAvatarEnhancedIdScRsp { growth_avatar_id: 1008, skilltree_version: 2 })),
    );
    assert!(matches!(&events[0], OptimizerEvent::UpdateCharacters(v) if v.len() == 1 && v[0].ability_version == 2));
    let unknown = read(
        &mut e,
        GameCommand::SetAvatarEnhancedId(Some(SetAvatarEnhancedIdScRsp { growth_avatar_id: 4242, skilltree_version: 2 })),
    );
    assert!(matches!(&unknown[0], OptimizerEvent::UpdateCharacters(v) if v.is_empty()));
}

#[test]
fn token_starts_a_new_session() {
    let mut e = OptimizerExporter::new(database());
    initialize(&mut e);
    let events = read(&mut e, GameCommand::PlayerGetToken(Some(PlayerGetTokenScRsp { uid: 42 })));
    assert!(events.is_empty());
    assert!(!e.is_initialized());
    let export = e.export().unwrap();
    assert_eq!(export.metadata.uid, Some(42));
    assert!(export.relics.is_empty());
    assert!(export.characters.is_empty());
}

#[test]
fn login_finish_and_other_commands_change_nothing() {
    let mut e = OptimizerExporter::new(database());
    assert!(read(&mut e, GameCommand::PlayerLoginFinish).is_empty());
    assert!(read(&mut e, GameCommand::Other(1234)).is_empty());
    assert!(e.is_empty());
}

#[test]
fn gacha_counts_pity_since_last_drop() {
    let mut e = OptimizerExporter::new(database());
    initialize(&mut e);
    read(
        &mut e,
        GameCommand::GetGachaInfo(Some(GetGachaInfoScRsp {
            gacha_info_list: vec![
                GachaInfo { gacha_id: 2001, item_detail_list: vec![1102], prize_item_list: vec![1102] },
                GachaInfo { gacha_id: 3001, item_detail_list: vec![], prize_item_list: vec![23000] },
                GachaInfo { gacha_id: 1001, item_detail_list: vec![], prize_item_list: vec![] },
            ],
        })),
    );
    // 3-star, 5-star on rate-up, 3-star, 4-star off rate-up, 3-star.
    let events = read(
        &mut e,
        GameCommand::DoGacha(Some(DoGachaScRsp {
            gacha_id: 2001,
            gacha_item_list: vec![
                GachaItem { item_id: 20000 },
                GachaItem { item_id: 1102 },
                GachaItem { item_id: 20000 },
                GachaItem { item_id: 1008 },
                GachaItem { item_id: 20000 },
            ],
        })),
    );
    assert_eq!(events.len(), 1);
    match &events[0] {
        OptimizerEvent::GachaResult(g) => {
            assert_eq!(g.banner_id, 2001);
            assert!(matches!(g.banner_type, BannerType::Character));
            assert!(matches!(g.pity_5, PityUpdate::ResetPity { amount: 3, set_guarantee: false }));
            assert!(matches!(g.pity_4, PityUpdate::ResetPity { amount: 1, set_guarantee: true }));
            assert_eq!(g.pull_results, vec![20000, 1102, 20000, 1008, 20000]);
        }
        other => panic!("unexpected event {:?}", other),
    }
    let lc = read(&mut e, GameCommand::DoGacha(Some(DoGachaScRsp { gacha_id: 3001, gacha_item_list: vec![GachaItem { item_id: 20000 }] })));
    match &lc[0] {
        OptimizerEvent::GachaResult(g) => {
            assert!(matches!(g.banner_type, BannerType::LightCone));
            assert!(matches!(g.pity_5, PityUpdate::AddPity { amount: 1 }));
            assert!(matches!(g.pity_4, PityUpdate::AddPity { amount: 1 }));
        }
        other => panic!("unexpected event {:?}", other),
    }
    // An unknown banner gives no result.
    assert!(read(&mut e, GameCommand::DoGacha(Some(DoGachaScRsp { gacha_id: 9, gacha_item_list: vec![] }))).is_empty());
}

#[test]
fn standard_banner_is_recognised_by_id() {
    let mut e = OptimizerExporter::new(database());
    initialize(&mut e);
    read(
        &mut e,
        GameCommand::GetGachaInfo(Some(GetGachaInfoScRsp {
            gacha_info_list: vec![GachaInfo { gacha_id: 1001, item_detail_list: vec![], prize_item_list: vec![] }],
        })),
    );
    let events = read(&mut e, GameCommand::DoGacha(Some(DoGachaScRsp { gacha_id: 1001, gacha_item_list: vec![] })));
    assert!(matches!(&events[0], OptimizerEvent::GachaResult(g) if matches!(g.banner_type, BannerType::Standard)));
}

#[test]
fn commands_that_would_fail_are_detected() {
    let e = OptimizerExporter::new(database());
    // A relic whose main stat is not configured cannot be converted.
    let mut bad = relic(1, 0);
    bad.main_affix_id = 77;
    assert!(!e.command_ok(&GameCommand::GetBag(Some(GetBagScRsp { relic_list: vec![bad], equipment_list: vec![], material_list: vec![] }))));
    // A character with a name but no configuration cannot be converted.
    assert!(!e.command_ok(&GameCommand::GetAvatarData(Some(GetAvatarDataScRsp { avatar_list: vec![character(8005, 1)], multi_path_avatar_info_list: vec![] }))));
    // A banner other than the standard one without prizes.
    assert!(!e.command_ok(&GameCommand::GetGachaInfo(Some(GetGachaInfoScRsp {
        gacha_info_list: vec![GachaInfo { gacha_id: 5, item_detail_list: vec![], prize_item_list: vec![] }],
    }))));
    assert!(e.command_ok(&GameCommand::GetBag(Some(GetBagScRsp { relic_list: vec![relic(1, 0)], equipment_list: vec![], material_list: vec![] }))));
}
