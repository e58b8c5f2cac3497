use std::collections::{BTreeMap, HashMap, HashSet};

use reliquary_archiver::database::Database;
use reliquary_archiver::exporter::OptimizerExporter;
use reliquary_archiver::session::SnifferMetric;
use reliquary_archiver::ui::{
    connection_status_text, restart_server_port, system_command_response, tray_left_click, tray_menu_first_entry,
    ws_status_text, SystemCommand, SystemCommandResponse, TrayClickAction, WindowMode,
};
use reliquary_archiver::ui::{
    handle_connection_check, handle_screen_transitions, handle_sniffer_metric, handle_websocket_message,
    handle_window_message, level_directive, verbosity_directive, AccountMessage, AccountSelection, ActiveScreen,
    ExportStats, FileExtensions, ImageFit, LogLevel, PortCommand, Screen, StatsStore, WaitingScreen,
    WebSocketMessage, WebSocketStatus, WindowAction, WindowMessage, STALE_AFTER_NANOS,
};
use reliquary_archiver::updater::{
    check_message, completion_message, handle_update_message, identifier, UpdateAction, UpdateInfo, UpdateMessage,
    UpdateState,
};
use reliquary_archiver::ui::{
    json_export_file, reconcile_run_on_start, startup_display, ExportEventAction, ScreenRequest, StartupDisplay,
    WaitingMessage,
};
use reliquary_archiver::platform::RegistryError;

const SECOND: u64 = 1_000_000_000;

#[test]
fn file_extensions_keep_description_and_order() {
    let f = FileExtensions::of("JSON files", &["json", "txt"]);
    assert_eq!(f.description, "JSON files");
    assert_eq!(f.extensions, vec!["json".to_string(), "txt".to_string()]);
    let none = FileExtensions::of("", &[]);
    assert!(none.extensions.is_empty());
}

#[test]
fn export_stats_count_stored_items() {
    let db: &'static Database = Box::leak(Box::new(Database {
        avatar_config: HashMap::new(),
        avatar_skill_tree_config: BTreeMap::new(),
        equipment_config: HashMap::new(),
        item_config: HashMap::new(),
        multipath_avatar_config: HashMap::new(),
        relic_config: HashMap::new(),
        relic_set_config: HashMap::new(),
        relic_main_affix_config: BTreeMap::new(),
        relic_sub_affix_config: BTreeMap::new(),
        text_map: HashMap::new(),
        multipath_avatar_types: HashSet::new(),
        keys: HashMap::new(),
    }));
    let e = OptimizerExporter::new(db);
    assert_eq!(ExportStats::new(&e), ExportStats::zero());
    assert_eq!(ExportStats::zero(), ExportStats { relics: 0, characters: 0, light_cones: 0, materials: 0 });
}

#[test]
fn sniffer_metrics_update_the_statistics() {
    let mut s = StatsStore::new();
    handle_sniffer_metric(&mut s, SnifferMetric::ConnectionEstablished, 0);
    assert!(s.connected);
    assert!(!s.connection_active);
    handle_sniffer_metric(&mut s, SnifferMetric::NetworkPacketReceived, 5);
    handle_sniffer_metric(&mut s, SnifferMetric::NetworkPacketReceived, 6);
    assert_eq!(s.packets_received, 2);
    assert_eq!(s.last_packet_time, Some(6));
    handle_sniffer_metric(&mut s, SnifferMetric::GameCommandsReceived(0), 7);
    assert!(!s.connection_active);
    assert_eq!(s.last_command_time, None);
    handle_sniffer_metric(&mut s, SnifferMetric::GameCommandsReceived(4), 8);
    assert!(s.connection_active);
    assert_eq!(s.commands_received, 4);
    assert_eq!(s.last_command_time, Some(8));
    handle_sniffer_metric(&mut s, SnifferMetric::DecryptionKeyMissing, 9);
    handle_sniffer_metric(&mut s, SnifferMetric::NetworkError, 9);
    handle_sniffer_metric(&mut s, SnifferMetric::NetworkError, 9);
    assert_eq!(s.decryption_key_missing, 1);
    assert_eq!(s.network_errors, 2);
    handle_sniffer_metric(&mut s, SnifferMetric::ConnectionDisconnected, 10);
    assert!(!s.connected);
    assert!(!s.connection_active);
    assert_eq!(s.packets_received, 0);
    assert_eq!(s.commands_received, 0);
    assert_eq!(s.network_errors, 2);
}

#[test]
fn connection_goes_stale_after_a_minute() {
    let mut s = StatsStore::new();
    handle_sniffer_metric(&mut s, SnifferMetric::NetworkPacketReceived, 100 * SECOND);
    handle_sniffer_metric(&mut s, SnifferMetric::GameCommandsReceived(1), 100 * SECOND);
    // Exactly a minute is not stale yet.
    handle_connection_check(&mut s, 100 * SECOND + STALE_AFTER_NANOS);
    assert!(s.connected && s.connection_active);
    assert_eq!(s.packets_received, 1);
    handle_connection_check(&mut s, 161 * SECOND);
    assert!(!s.connected);
    assert!(!s.connection_active);
    assert_eq!(s.packets_received, 0);
    assert_eq!(s.commands_received, 0);
    // A clock reading before the last packet counts as no time passed.
    let mut t = StatsStore::new();
    handle_sniffer_metric(&mut t, SnifferMetric::NetworkPacketReceived, 500 * SECOND);
    handle_connection_check(&mut t, SECOND);
    assert!(t.connected);
}

#[test]
fn stale_commands_only_deactivate() {
    let mut s = StatsStore::new();
    handle_sniffer_metric(&mut s, SnifferMetric::GameCommandsReceived(2), 0);
    handle_sniffer_metric(&mut s, SnifferMetric::NetworkPacketReceived, 100 * SECOND);
    handle_connection_check(&mut s, 100 * SECOND);
    assert!(s.connected);
    assert!(!s.connection_active);
    assert_eq!(s.commands_received, 2);
}

#[test]
fn screen_follows_the_connection() {
    let mut screen = Screen::Waiting(WaitingScreen::new());
    handle_screen_transitions(&mut screen, false);
    assert_eq!(screen, Screen::Waiting(WaitingScreen {}));
    handle_screen_transitions(&mut screen, true);
    assert_eq!(screen, Screen::Active(ActiveScreen::new()));
    handle_screen_transitions(&mut screen, true);
    assert_eq!(screen, Screen::Active(ActiveScreen {}));
    handle_screen_transitions(&mut screen, false);
    assert_eq!(screen, Screen::Waiting(WaitingScreen {}));
}

#[test]
fn websocket_messages_update_status_and_port() {
    let mut status = WebSocketStatus::Pending;
    let mut port: u16 = 23313;
    let a = handle_websocket_message(&mut status, &mut port, WebSocketMessage::ClientCountChanged(3));
    assert!(matches!(status, WebSocketStatus::Pending));
    assert!(a.port_command.is_none() && !a.save_settings);
    let a = handle_websocket_message(&mut status, &mut port, WebSocketMessage::SendPort(4000));
    assert_eq!(a.port_command, Some(PortCommand::Open(4000)));
    assert!(!a.save_settings);
    assert_eq!(port, 4000);
    let a = handle_websocket_message(&mut status, &mut port, WebSocketMessage::PortChanged(4000));
    assert!(a.save_settings);
    assert!(matches!(status, WebSocketStatus::Running { port: 4000, client_count: 0 }));
    handle_websocket_message(&mut status, &mut port, WebSocketMessage::ClientCountChanged(2));
    assert!(matches!(status, WebSocketStatus::Running { port: 4000, client_count: 2 }));
    // A bad port does not stop a running server.
    handle_websocket_message(&mut status, &mut port, WebSocketMessage::InvalidPort("in use".to_string()));
    assert!(matches!(status, WebSocketStatus::Running { .. }));
    let a = handle_websocket_message(&mut status, &mut port, WebSocketMessage::Close);
    assert_eq!(a.port_command, Some(PortCommand::Close));

    let mut pending = WebSocketStatus::Pending;
    handle_websocket_message(&mut pending, &mut port, WebSocketMessage::InvalidPort("in use".to_string()));
    assert!(matches!(&pending, WebSocketStatus::Failed { error } if error == "in use"));
    handle_websocket_message(&mut pending, &mut port, WebSocketMessage::Status(WebSocketStatus::Pending));
    assert!(matches!(pending, WebSocketStatus::Pending));
}

#[test]
fn window_messages() {
    let mut open = false;
    assert_eq!(handle_window_message(&mut open, WindowMessage::ToggleMenu), WindowAction::Nothing);
    assert!(open);
    assert_eq!(handle_window_message(&mut open, WindowMessage::ToggleMenu), WindowAction::Nothing);
    assert!(!open);
    assert_eq!(handle_window_message(&mut open, WindowMessage::Hide), WindowAction::HideWindow);
    assert_eq!(handle_window_message(&mut open, WindowMessage::ContextMenuMinimize), WindowAction::HideWindow);
    assert_eq!(handle_window_message(&mut open, WindowMessage::Show), WindowAction::ShowWindow);
    assert_eq!(handle_window_message(&mut open, WindowMessage::ContextMenuShow), WindowAction::ShowWindow);
    assert_eq!(handle_window_message(&mut open, WindowMessage::ContextMenuQuit), WindowAction::Exit);
    assert_eq!(handle_window_message(&mut open, WindowMessage::ContextMenuCancelled), WindowAction::Nothing);
    assert!(!open);
}

#[test]
fn log_directives() {
    assert_eq!(level_directive(LogLevel::Trace), "trace");
    assert_eq!(level_directive(LogLevel::Debug), "debug");
    assert_eq!(level_directive(LogLevel::Info), "info");
    assert_eq!(level_directive(LogLevel::Warn), "warn");
    assert_eq!(level_directive(LogLevel::Error), "error");
    assert_eq!(level_directive(LogLevel::Off), "off");
    assert_eq!(verbosity_directive(0), "reliquary_archiver=info");
    assert_eq!(verbosity_directive(1), "info");
    assert_eq!(verbosity_directive(2), "debug");
    assert_eq!(verbosity_directive(3), "trace");
    assert_eq!(verbosity_directive(200), "trace");
}

#[test]
fn image_fit_defaults_to_fill() {
    assert_eq!(ImageFit::default(), ImageFit::Fill);
}

#[test]
fn account_selection() {
    let mut a = AccountSelection::new();
    assert!(a.is_selected(5));
    assert_eq!(a.handle_account_message(AccountMessage::Select(5)), None);
    assert_eq!(a.selected_account, None);
    assert!(!a.export_out_of_date);
    assert_eq!(a.handle_account_message(AccountMessage::Discovered { uid: 5 }), Some(5));
    assert_eq!(a.handle_account_message(AccountMessage::Discovered { uid: 6 }), Some(6));
    assert_eq!(a.selected_account, Some(6));
    assert!(a.export_out_of_date);
    assert!(!a.is_selected(5));
    assert_eq!(a.handle_account_message(AccountMessage::Select(5)), Some(5));
    assert!(a.is_selected(5));
    assert_eq!(a.handle_account_message(AccountMessage::Select(7)), None);
    assert_eq!(a.selected_account, Some(5));
}

#[test]
fn update_flow() {
    let mut state: Option<UpdateState> = None;
    let mut spawn = reliquary_archiver::updater::SpawnAfterExit::new();
    assert_eq!(handle_update_message(UpdateMessage::PerformCheck, &mut state, false, &mut spawn), UpdateAction::CheckForUpdates);
    assert!(matches!(state, Some(UpdateState::Checking)));
    let found = UpdateMessage::CheckResult(Ok(Some(("1.0.0".to_string(), "1.1.0".to_string()))));
    assert_eq!(handle_update_message(found, &mut state, false, &mut spawn), UpdateAction::Nothing);
    assert!(matches!(&state, Some(UpdateState::Available { current_version, latest_version })
        if current_version == "1.0.0" && latest_version == "1.1.0"));
    assert_eq!(handle_update_message(UpdateMessage::Confirm, &mut state, false, &mut spawn), UpdateAction::RunUpdate);
    assert!(matches!(state, Some(UpdateState::Updating)));
    assert!(!reliquary_archiver::updater::should_spawn_after_exit(&spawn));
    assert_eq!(handle_update_message(UpdateMessage::Complete(Ok(())), &mut state, false, &mut spawn), UpdateAction::ExitForRestart);
    assert!(reliquary_archiver::updater::should_spawn_after_exit(&spawn));
    assert_eq!(
        handle_update_message(UpdateMessage::Complete(Err("disk full".to_string())), &mut state, false, &mut spawn),
        UpdateAction::Nothing
    );
    assert!(matches!(&state, Some(UpdateState::Failed(e)) if e == "disk full"));
    assert_eq!(handle_update_message(UpdateMessage::Dismiss, &mut state, false, &mut spawn), UpdateAction::Nothing);
    assert!(state.is_none());
    assert_eq!(handle_update_message(UpdateMessage::CheckResult(Ok(None)), &mut state, false, &mut spawn), UpdateAction::Nothing);
    assert!(matches!(state, Some(UpdateState::UpToDate)));
    assert_eq!(handle_update_message(UpdateMessage::CheckResult(Err("offline".to_string())), &mut state, false, &mut spawn), UpdateAction::Nothing);
    assert!(matches!(&state, Some(UpdateState::Failed(e)) if e == "offline"));
}

#[test]
fn update_without_consent_confirms_at_once() {
    let mut state: Option<UpdateState> = Some(UpdateState::Checking);
    let mut spawn = reliquary_archiver::updater::SpawnAfterExit::new();
    let found = UpdateMessage::CheckResult(Ok(Some(("1.0.0".to_string(), "1.1.0".to_string()))));
    assert_eq!(handle_update_message(found, &mut state, true, &mut spawn), UpdateAction::SendConfirm);
    assert!(matches!(state, Some(UpdateState::Checking)));
    assert!(!reliquary_archiver::updater::should_spawn_after_exit(&spawn));
}

#[test]
fn update_messages_from_outcomes() {
    assert!(matches!(completion_message(Ok(true)), UpdateMessage::Complete(Ok(()))));
    assert!(matches!(completion_message(Ok(false)), UpdateMessage::Complete(Err(e)) if e == "Update reported no changes"));
    assert!(matches!(completion_message(Err("boom".to_string())), UpdateMessage::Complete(Err(e)) if e == "boom"));
    let info = UpdateInfo { current_version: "1".to_string(), latest_version: "2".to_string(), download_url: "u".to_string() };
    assert!(matches!(check_message(Ok(Some(info))), UpdateMessage::CheckResult(Ok(Some((c, l)))) if c == "1" && l == "2"));
    assert!(matches!(check_message(Ok(None)), UpdateMessage::CheckResult(Ok(None))));
    assert!(matches!(check_message(Err("x".to_string())), UpdateMessage::CheckResult(Err(e)) if e == "x"));
}

#[test]
fn release_identifier_by_backend() {
    assert_eq!(identifier(true, false), Some("pcap"));
    assert_eq!(identifier(true, true), Some("pcap"));
    assert_eq!(identifier(false, true), Some("pktmon"));
    assert_eq!(identifier(false, false), None);
}

#[test]
fn export_files_and_events() {
    let f = json_export_file("archive.json".to_string(), "{}".to_string());
    assert_eq!(f.name, "archive.json");
    assert_eq!(f.content, "{}");
    assert_eq!(f.ext.description, "JSON files");
    assert_eq!(f.ext.extensions, vec!["json".to_string()]);

    let mut a = AccountSelection::new();
    assert_eq!(a.on_export_event(5, true), ExportEventAction::Refresh { new_export: true });
    assert!(a.export_out_of_date);
    a.handle_account_message(AccountMessage::Discovered { uid: 6 });
    a.export_out_of_date = false;
    assert_eq!(a.on_export_event(5, false), ExportEventAction::Ignore);
    assert!(!a.export_out_of_date);
    assert_eq!(a.on_export_event(6, false), ExportEventAction::Refresh { new_export: false });

    let mut w = WaitingScreen::new();
    assert!(matches!(w.update(WaitingMessage::PcapFileSelected(Some("x.pcap".to_string())), true), ScreenRequest::ProcessCapture(p) if p == "x.pcap"));
    assert!(matches!(w.update(WaitingMessage::PcapFileSelected(Some("x.pcap".to_string())), false), ScreenRequest::Nothing));
    assert!(matches!(w.update(WaitingMessage::PcapFileSelected(None), true), ScreenRequest::Nothing));

    assert_eq!(startup_display(false, true), StartupDisplay::Shown);
    assert_eq!(startup_display(true, true), StartupDisplay::Hidden);
    assert_eq!(startup_display(true, false), StartupDisplay::Minimized);
    assert!(!reconcile_run_on_start(true, Ok(false)));
    assert!(reconcile_run_on_start(false, Ok(false)));
    assert!(reconcile_run_on_start(true, Ok(true)));
    assert!(reconcile_run_on_start(true, Err(RegistryError::KeyCreationFailed)));
}

#[test]
fn toggle_options_and_spawn_requests() {
    let o = reliquary_archiver::ui::ToggleOption::new(ImageFit::Cover, "Cover".to_string());
    assert_eq!(o.value, ImageFit::Cover);
    assert_eq!(o.label, "Cover");
    let mut flag = reliquary_archiver::updater::SpawnAfterExit::new();
    assert!(!reliquary_archiver::updater::should_spawn_after_exit(&flag));
    reliquary_archiver::updater::request_spawn_after_exit(&mut flag);
    assert!(reliquary_archiver::updater::should_spawn_after_exit(&flag));
}

#[test]
fn export_view_messages() {
    let mut v = reliquary_archiver::ui::ExportView::new();
    assert!(v.json_export.is_none());
    let stats = ExportStats { relics: 3, characters: 2, light_cones: 1, materials: 0 };
    assert!(!v.handle_export_message(reliquary_archiver::ui::ExportMessage::Stats(stats), true));
    assert_eq!(v.stats, stats);
    v.out_of_date = true;
    assert!(!v.handle_export_message(
        reliquary_archiver::ui::ExportMessage::New { name: "a.json".to_string(), content: "{}".to_string() },
        true
    ));
    assert!(!v.out_of_date);
    let f = v.json_export.as_ref().unwrap();
    assert_eq!(f.name, "a.json");
    assert_eq!(f.ext.extensions, vec!["json".to_string()]);
    assert!(v.handle_export_message(reliquary_archiver::ui::ExportMessage::Refresh, true));
    assert!(!v.handle_export_message(reliquary_archiver::ui::ExportMessage::Refresh, false));
}

#[test]
fn self_update_decision() {
    let f = reliquary_archiver::updater::should_self_update;
    assert!(f(false, false, None));
    assert!(f(false, false, Some("0")));
    assert!(!f(false, false, Some("1")));
    assert!(!f(true, false, None));
    assert!(!f(false, true, None));
}

#[test]
fn status_lines() {
    assert_eq!(ws_status_text(&WebSocketStatus::Pending), "starting server...");
    assert_eq!(
        ws_status_text(&WebSocketStatus::Running { port: 53313, client_count: 0 }),
        "ws://localhost:53313/ws (no clients)"
    );
    assert_eq!(
        ws_status_text(&WebSocketStatus::Running { port: 80, client_count: 1 }),
        "ws://localhost:80/ws (1 client)"
    );
    assert_eq!(
        ws_status_text(&WebSocketStatus::Running { port: 80, client_count: 12 }),
        "ws://localhost:80/ws (12 clients)"
    );
    assert_eq!(
        ws_status_text(&WebSocketStatus::Failed { error: "port taken".to_string() }),
        "failed to start server: port taken"
    );
    let mut stats = StatsStore::new();
    assert_eq!(connection_status_text(&stats), "disconnected");
    stats.connected = true;
    stats.packets_received = 42;
    stats.commands_received = 7;
    assert_eq!(connection_status_text(&stats), "connected, 42/7 pkts/cmds received");
    let running = WebSocketStatus::Running { port: 53313, client_count: 2 };
    assert_eq!(restart_server_port(&running, 53313), None);
    assert_eq!(restart_server_port(&running, 8080), Some(8080));
    assert_eq!(restart_server_port(&WebSocketStatus::Pending, 53313), Some(53313));
    assert_eq!(restart_server_port(&WebSocketStatus::Failed { error: String::new() }, 1), Some(1));
}

#[test]
fn tray_and_system_commands() {
    assert_eq!(tray_left_click(WindowMode::Hidden, true), TrayClickAction::Show);
    assert_eq!(tray_left_click(WindowMode::Windowed, true), TrayClickAction::Hide);
    assert_eq!(tray_left_click(WindowMode::Windowed, false), TrayClickAction::Minimize);
    assert_eq!(tray_left_click(WindowMode::Minimized, false), TrayClickAction::Restore);
    assert_eq!(tray_menu_first_entry(WindowMode::Hidden), (WindowMessage::ContextMenuShow, "Show Window"));
    assert_eq!(tray_menu_first_entry(WindowMode::Minimized), (WindowMessage::ContextMenuMinimize, "Minimize to Tray"));
    assert_eq!(
        system_command_response(SystemCommand::Close, true, false),
        SystemCommandResponse::PreventWith(WindowMessage::Hide)
    );
    assert_eq!(system_command_response(SystemCommand::Close, false, true), SystemCommandResponse::Allow);
    assert_eq!(
        system_command_response(SystemCommand::Minimize, false, true),
        SystemCommandResponse::PreventWith(WindowMessage::Hide)
    );
    assert_eq!(system_command_response(SystemCommand::Minimize, true, false), SystemCommandResponse::Allow);
    assert_eq!(system_command_response(SystemCommand::Maximize, true, true), SystemCommandResponse::Allow);
    assert_eq!(system_command_response(SystemCommand::Restore, true, true), SystemCommandResponse::Allow);
}
