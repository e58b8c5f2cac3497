use std::collections::{BTreeMap, HashMap, HashSet};

use reliquary_archiver::accounts::MultiAccountManager;
use reliquary_archiver::database::{AvatarConfig, Database};
use reliquary_archiver::exporter::OptimizerExporter;
use reliquary_archiver::proto::{GameCommand, PlayerGetTokenScRsp, PlayerLoginScRsp, PlayerBasicInfo};
use reliquary_archiver::session::{
    file_process_packet, received_metrics, CommandFailure, ConnectionEvent, DecodedPacket, FileStep, LiveSession,
    LoopControl, NetworkFailure, SnifferMetric,
};
use reliquary_archiver::session::{subscription_change, CaptureMode, SubscriptionChange};

fn empty_database() -> &'static Database {
    let mut avatar_config = HashMap::new();
    avatar_config.insert(
        1008,
        AvatarConfig { avatar_id: 1008, avatar_name: 4, avatar_base_type: "Warrior".to_string(), rarity: "CombatPowerAvatarRarityType4".to_string() },
    );
    Box::leak(Box::new(Database {
        avatar_config,
        avatar_skill_tree_config: BTreeMap::new(),
        equipment_config: HashMap::new(),
        item_config: HashMap::new(),
        multipath_avatar_config: HashMap::new(),
        relic_config: HashMap::new(),
        relic_set_config: HashMap::new(),
        relic_main_affix_config: BTreeMap::new(),
        relic_sub_affix_config: BTreeMap::new(),
        text_map: HashMap::new(),
        multipath_avatar_types: HashSet::new(),
        keys: HashMap::new(),
    }))
}

fn token(conv_id: u32, uid: u32) -> DecodedPacket {
    DecodedPacket::Commands { conv_id, result: Ok(GameCommand::PlayerGetToken(Some(PlayerGetTokenScRsp { uid }))) }
}

fn login(conv_id: u32, jade: u32) -> DecodedPacket {
    DecodedPacket::Commands {
        conv_id,
        result: Ok(GameCommand::PlayerLogin(Some(PlayerLoginScRsp {
            basic_info: PlayerBasicInfo { oneric_shard_count: 0, stellar_jade_count: jade },
        }))),
    }
}

#[test]
fn register_reports_new_accounts_once() {
    let mut m = MultiAccountManager::new(empty_database(), HashMap::new());
    assert!(m.register_uid(1, 100));
    assert!(!m.register_uid(1, 100));
    assert!(m.register_uid(2, 200));
    assert_eq!(m.get_all_accounts(), Vec::<u32>::new());
    m.get_or_create_exporter(1);
    m.get_or_create_exporter(2);
    assert_eq!(m.get_all_accounts(), vec![100, 200]);
    assert!(m.get_account_exporter(100).is_some());
    assert!(m.get_account_exporter(300).is_none());
}

#[test]
fn reconnection_drops_the_old_exporter() {
    let mut m = MultiAccountManager::new(empty_database(), HashMap::new());
    m.get_or_create_exporter(1);
    m.register_uid(1, 100);
    assert!(m.is_conv_active(1));
    assert!(!m.register_uid(5, 100));
    assert!(!m.is_conv_active(1));
    // The new connection has no exporter yet.
    assert!(m.get_account_exporter(100).is_none());
    m.get_or_create_exporter(5);
    assert!(m.get_account_exporter(100).is_some());
    assert_eq!(m.get_all_accounts(), vec![100]);
}

#[test]
fn worker_routes_commands_to_their_connection() {
    let mut m = MultiAccountManager::new(empty_database(), HashMap::new());
    let p = token(7, 555);
    assert!(m.can_read(&p));
    let out = m.worker_on_packet(p);
    assert_eq!(out.discovered, Some(555));
    assert_eq!(out.metric, None);
    assert!(out.events.is_empty());
    let out = m.worker_on_packet(login(7, 1600));
    assert_eq!(out.discovered, None);
    let e = m.get_account_exporter(555).expect("exporter");
    assert_eq!(e.gacha.stellar_jade, 1600);
    assert_eq!(e.uid, Some(555));
    // Another connection has its own exporter.
    m.worker_on_packet(login(8, 10));
    assert!(m.is_conv_active(8));
    assert_eq!(m.get_account_exporter(555).unwrap().gacha.stellar_jade, 1600);
}

#[test]
fn worker_reports_packet_metrics() {
    let mut m = MultiAccountManager::new(empty_database(), HashMap::new());
    let out = m.worker_on_packet(DecodedPacket::Connection(ConnectionEvent::HandshakeEstablished { conv_id: 3 }));
    assert_eq!(out.metric, Some(SnifferMetric::ConnectionEstablished));
    let out = m.worker_on_packet(DecodedPacket::Connection(ConnectionEvent::Disconnected));
    assert_eq!(out.metric, Some(SnifferMetric::ConnectionDisconnected));
    let out = m.worker_on_packet(DecodedPacket::Connection(ConnectionEvent::Other));
    assert_eq!(out.metric, None);
    let out = m.worker_on_packet(DecodedPacket::Commands { conv_id: 3, result: Err(CommandFailure::DecryptionKeyMissing) });
    assert_eq!(out.metric, Some(SnifferMetric::DecryptionKeyMissing));
    let out = m.worker_on_packet(DecodedPacket::Commands { conv_id: 3, result: Err(CommandFailure::VersionMismatch) });
    assert_eq!(out.metric, Some(SnifferMetric::NetworkError));
    assert!(!m.is_conv_active(3));
}

#[test]
fn received_metrics_count_the_packet_first() {
    assert_eq!(received_metrics(Ok(3)), vec![SnifferMetric::NetworkPacketReceived, SnifferMetric::GameCommandsReceived(3)]);
    assert_eq!(
        received_metrics(Err(NetworkFailure::DecryptionKeyMissing)),
        vec![SnifferMetric::NetworkPacketReceived, SnifferMetric::DecryptionKeyMissing]
    );
    assert_eq!(
        received_metrics(Err(NetworkFailure::ConnectionPacket)),
        vec![SnifferMetric::NetworkPacketReceived, SnifferMetric::NetworkError]
    );
}

#[test]
fn live_session_stops_at_login_finish_unless_streaming() {
    let mut m = MultiAccountManager::new(empty_database(), HashMap::new());
    let mut s = LiveSession::new(false);
    let step = s.on_packet(&mut m, token(1, 900));
    assert_eq!(step.control, LoopControl::Continue);
    assert_eq!(step.selected, Some(900));
    assert_eq!(s.latest_uid, Some(900));
    let step = s.on_packet(&mut m, DecodedPacket::Commands { conv_id: 1, result: Ok(GameCommand::PlayerLoginFinish) });
    assert_eq!(step.control, LoopControl::Stop);

    let mut streaming = LiveSession::new(true);
    let step = streaming.on_packet(&mut m, DecodedPacket::Commands { conv_id: 1, result: Ok(GameCommand::PlayerLoginFinish) });
    assert_eq!(step.control, LoopControl::Continue);
}

#[test]
fn live_session_handles_failures() {
    let mut m = MultiAccountManager::new(empty_database(), HashMap::new());
    let mut s = LiveSession::new(false);
    let step = s.on_packet(&mut m, DecodedPacket::Commands { conv_id: 1, result: Err(CommandFailure::VersionMismatch) });
    assert_eq!(step.control, LoopControl::Continue);
    let step = s.on_packet(&mut m, DecodedPacket::Commands { conv_id: 1, result: Err(CommandFailure::Other) });
    assert_eq!(step.control, LoopControl::Stop);
    assert!(!s.is_poisoned(17));
    assert_eq!(s.on_network_error(17, NetworkFailure::ConnectionPacket), LoopControl::Continue);
    assert!(s.is_poisoned(17));
    assert_eq!(s.on_network_error(18, NetworkFailure::Other), LoopControl::Stop);
    assert!(!s.is_poisoned(18));
}

#[test]
fn live_session_exports_the_latest_account() {
    let mut m = MultiAccountManager::new(empty_database(), HashMap::new());
    let mut s = LiveSession::new(false);
    assert!(s.final_export(&m).is_none());
    s.on_packet(&mut m, token(1, 900));
    assert_eq!(s.after_packets(&m), LoopControl::Continue);
    let export = s.final_export(&m).expect("export");
    assert_eq!(export.metadata.uid, Some(900));
}

#[test]
fn file_reading_stops_on_failures_and_skips_misordered_packets() {
    let mut e = OptimizerExporter::new(empty_database());
    assert_eq!(file_process_packet(&mut e, DecodedPacket::Connection(ConnectionEvent::Other)), FileStep::Next);
    assert_eq!(file_process_packet(&mut e, token(1, 5)), FileStep::Next);
    assert_eq!(e.uid, Some(5));
    assert_eq!(
        file_process_packet(&mut e, DecodedPacket::Commands { conv_id: 1, result: Err(CommandFailure::VersionMismatch) }),
        FileStep::SkipRest
    );
    assert_eq!(
        file_process_packet(&mut e, DecodedPacket::Commands { conv_id: 1, result: Err(CommandFailure::DecryptionKeyMissing) }),
        FileStep::Stop
    );
}

#[test]
fn exports_by_account_or_the_first_one() {
    let mut m = MultiAccountManager::new(empty_database(), HashMap::new());
    assert!(m.export_for(None).is_none());
    m.worker_on_packet(token(1, 100));
    m.worker_on_packet(token(2, 200));
    assert_eq!(m.export_for(None).unwrap().metadata.uid, Some(100));
    assert_eq!(m.export_for(Some(200)).unwrap().metadata.uid, Some(200));
    assert!(m.export_for(Some(300)).is_none());

    assert_eq!(subscription_change(None, 4), SubscriptionChange { subscribe: true, reconnection: false });
    assert_eq!(subscription_change(Some(4), 4), SubscriptionChange { subscribe: false, reconnection: false });
    assert_eq!(subscription_change(Some(3), 4), SubscriptionChange { subscribe: true, reconnection: true });

    assert!(matches!(CaptureMode::from_args(Some("a.pcap".to_string()), Some("b.etl".to_string())), CaptureMode::Pcap(p) if p == "a.pcap"));
    assert!(matches!(CaptureMode::from_args(None, Some("b.etl".to_string())), CaptureMode::Etl(p) if p == "b.etl"));
    assert!(matches!(CaptureMode::from_args(None, None), CaptureMode::Live));
}
