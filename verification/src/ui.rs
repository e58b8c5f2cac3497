//! The state the user interface keeps apart from the exporters: connection
//! statistics, the web socket server's status, which screen shows, the
//! selected account, and how messages change them.
use std::collections::HashSet;

use vstd::prelude::*;

use crate::collect::map_views;
use crate::exporter::OptimizerExporter;
use crate::session::SnifferMetric;
use crate::text::{decimal, push_decimal};

verus! {

/// A file type filter of a save dialog.
#[derive(Debug, Clone)]
pub struct FileExtensions {
    pub description: String,
    pub extensions: Vec<String>,
}

impl FileExtensions {
    /// A filter with the given description and extensions, in order.
    pub fn of(description: &str, extensions: &[&str]) -> (r: FileExtensions)
        ensures
            r.description@ == description@,
            r.extensions@.len() == extensions@.len(),
            forall|i: int| 0 <= i < extensions@.len() ==> (#[trigger] r.extensions@[i])@ == extensions@[i]@,
    {
        let mut list: Vec<String> = Vec::new();
        let mut i: usize = 0;
        while i < extensions.len()
            invariant
                i <= extensions@.len(),
                list@.len() == i,
                forall|j: int| 0 <= j < i ==> (#[trigger] list@[j])@ == extensions@[j]@,
            decreases extensions.len() - i,
        {
            list.push(String::from_str(extensions[i]));
            i = i + 1;
        }
        FileExtensions { description: String::from_str(description), extensions: list }
    }
}

/// A file ready to be saved: its suggested name, its text and its type.
#[derive(Debug, Clone)]
pub struct FileContainer {
    pub name: String,
    pub content: String,
    pub ext: FileExtensions,
}

/// How many items of each kind the current export holds.
#[derive(Debug, Clone, Copy, PartialEq, Eq, Structural)]
pub struct ExportStats {
    pub relics: usize,
    pub characters: usize,
    pub light_cones: usize,
    pub materials: usize,
}

impl ExportStats {
    /// Counts what `exporter` has stored.
    pub fn new(exporter: &OptimizerExporter) -> (r: ExportStats)
        ensures
            r.relics == exporter@.relics.len(),
            r.characters == exporter@.characters.len(),
            r.light_cones == exporter@.light_cones.len(),
            r.materials == exporter@.materials.len(),
    {
        proof {
            assert(map_views(exporter.relics@).dom() =~= exporter.relics@.dom());
            assert(map_views(exporter.characters@).dom() =~= exporter.characters@.dom());
            assert(map_views(exporter.light_cones@).dom() =~= exporter.light_cones@.dom());
            assert(map_views(exporter.materials@).dom() =~= exporter.materials@.dom());
        }
        ExportStats {
            relics: exporter.relics.len(),
            characters: exporter.characters.len(),
            light_cones: exporter.light_cones.len(),
            materials: exporter.materials.len(),
        }
    }

    /// No item at all, as a value of the specification.
    pub open spec fn zero_spec() -> ExportStats {
        ExportStats { relics: 0, characters: 0, light_cones: 0, materials: 0 }
    }

    /// No item at all, as before any export.
    pub fn zero() -> (r: ExportStats)
        ensures
            r == Self::zero_spec(),
    {
        ExportStats { relics: 0, characters: 0, light_cones: 0, materials: 0 }
    }
}

/// The status of the web socket server.
#[derive(Debug, Clone)]
pub enum WebSocketStatus {
    Pending,
    Running { port: u16, client_count: usize },
    Failed { error: String },
}

/// Messages about the web socket server.
#[derive(Debug, Clone)]
pub enum WebSocketMessage {
    /// The server reports a new status.
    Status(WebSocketStatus),
    /// The user asks for another port.
    SendPort(u16),
    /// The server now listens on this port.
    PortChanged(u16),
    /// The number of connected clients changed.
    ClientCountChanged(usize),
    /// The requested port could not be used.
    InvalidPort(String),
    /// The user asks to close the server.
    Close,
}

/// What the server task is told to do.
#[derive(Debug, Clone, Copy, PartialEq, Eq, Structural)]
pub enum PortCommand {
    Open(u16),
    Close,
}

/// What handling a web socket message asks of the caller.
pub struct WebSocketAction {
    /// A command for the server task, if it is running.
    pub port_command: Option<PortCommand>,
    /// Whether the settings are to be saved.
    pub save_settings: bool,
}

/// The status after a web socket message.
pub open spec fn spec_ws_status_after(status: WebSocketStatus, msg: WebSocketMessage) -> WebSocketStatus {
    match msg {
        WebSocketMessage::Status(s) => s,
        WebSocketMessage::PortChanged(port) => WebSocketStatus::Running { port, client_count: 0 },
        WebSocketMessage::ClientCountChanged(n) => match status {
            WebSocketStatus::Running { port, .. } => WebSocketStatus::Running { port, client_count: n },
            _ => status,
        },
        WebSocketMessage::InvalidPort(err) => match status {
            WebSocketStatus::Pending => WebSocketStatus::Failed { error: err },
            _ => status,
        },
        _ => status,
    }
}

/// A change of the client count neither starts nor stops the server, nor
/// moves it to another port; a port that could not be used only fails a
/// server that is still pending.
pub proof fn law_client_counts_and_bad_ports_keep_a_running_server(
    status: WebSocketStatus,
    n: usize,
    err: String,
)
    ensures
        (spec_ws_status_after(status, WebSocketMessage::ClientCountChanged(n)) is Running) <==> (status is Running),
        status matches WebSocketStatus::Running { port, .. } ==> spec_ws_status_after(
            status,
            WebSocketMessage::ClientCountChanged(n),
        ) == (WebSocketStatus::Running { port, client_count: n }),
        !(status is Pending) ==> spec_ws_status_after(status, WebSocketMessage::InvalidPort(err)) == status,
{
}

/// Handles a web socket message. A status replaces the status; a requested
/// port is passed on to the server and kept in the settings (which are not
/// saved yet); a port the server now uses makes it running without clients
/// and saves the settings; a client count only updates a running server; a
/// port that could not be used fails a server still pending; closing is
/// passed on to the server.
pub fn handle_websocket_message(status: &mut WebSocketStatus, ws_port: &mut u16, msg: WebSocketMessage) -> (r: WebSocketAction)
    ensures
        *final(status) == spec_ws_status_after(*old(status), msg),
        *final(ws_port) == match msg {
            WebSocketMessage::SendPort(p) => p,
            _ => *old(ws_port),
        },
        r.port_command == match msg {
            WebSocketMessage::SendPort(p) => Some(PortCommand::Open(p)),
            WebSocketMessage::Close => Some(PortCommand::Close),
            _ => None,
        },
        r.save_settings == (msg is PortChanged),
{
    match msg {
        WebSocketMessage::Status(s) => {
            *status = s;
            WebSocketAction { port_command: None, save_settings: false }
        },
        WebSocketMessage::SendPort(port) => {
            *ws_port = port;
            WebSocketAction { port_command: Some(PortCommand::Open(port)), save_settings: false }
        },
        WebSocketMessage::Close => WebSocketAction { port_command: Some(PortCommand::Close), save_settings: false },
        WebSocketMessage::PortChanged(port) => {
            *status = WebSocketStatus::Running { port, client_count: 0 };
            WebSocketAction { port_command: None, save_settings: true }
        },
        WebSocketMessage::ClientCountChanged(n) => {
            match status {
                WebSocketStatus::Running { port, .. } => {
                    let p = *port;
                    *status = WebSocketStatus::Running { port: p, client_count: n };
                },
                _ => {},
            }
            WebSocketAction { port_command: None, save_settings: false }
        },
        WebSocketMessage::InvalidPort(err) => {
            match status {
                WebSocketStatus::Pending => {
                    *status = WebSocketStatus::Failed { error: err };
                },
                _ => {},
            }
            WebSocketAction { port_command: None, save_settings: false }
        },
    }
}

/// The status line of the web socket server: starting, the address with
/// the number of clients ("no clients", "1 client", "2 clients"), or why it
/// failed.
pub open spec fn spec_ws_status_text(status: WebSocketStatus) -> Seq<char> {
    match status {
        WebSocketStatus::Pending => "starting server..."@,
        WebSocketStatus::Running { port, client_count } => "ws://localhost:"@ + decimal(port as nat)
            + "/ws ("@ + if client_count == 0 {
            "no clients"@
        } else if client_count == 1 {
            "1 client"@
        } else {
            decimal(client_count as nat) + " clients"@
        } + ")"@,
        WebSocketStatus::Failed { error } => "failed to start server: "@ + error@,
    }
}

/// The status line of the web socket server, as [`spec_ws_status_text`]
/// says.
pub fn ws_status_text(status: &WebSocketStatus) -> (r: String)
    ensures
        r@ == spec_ws_status_text(*status),
{
    match status {
        WebSocketStatus::Pending => String::from_str("starting server..."),
        WebSocketStatus::Running { port, client_count } => {
            let mut r = String::from_str("ws://localhost:");
            push_decimal(&mut r, *port as u64);
            r.append("/ws (");
            if *client_count == 0 {
                r.append("no clients");
            } else {
                push_decimal(&mut r, *client_count as u64);
                if *client_count == 1 {
                    r.append(" client");
                    proof {
                        reveal_strlit(" client");
                        reveal_strlit("1 client");
                        assert(decimal(1) == seq!['1']);
                    }
                } else {
                    r.append(" clients");
                }
            }
            r.append(")");
            proof {
                if *client_count == 1 {
                    assert(decimal(*client_count as nat) + " client"@ =~= "1 client"@);
                }
            }
            r
        },
        WebSocketStatus::Failed { error } => {
            let mut r = String::from_str("failed to start server: ");
            r.append(error.as_str());
            r
        },
    }
}

/// The status line of the game connection: the packets and commands seen
/// while connected, else "disconnected".
pub fn connection_status_text(stats: &StatsStore) -> (r: String)
    ensures
        r@ == if stats.connected {
            "connected, "@ + decimal(stats.packets_received as nat) + "/"@ + decimal(
                stats.commands_received as nat,
            ) + " pkts/cmds received"@
        } else {
            "disconnected"@
        },
{
    if stats.connected {
        let mut r = String::from_str("connected, ");
        push_decimal(&mut r, stats.packets_received as u64);
        r.append("/");
        push_decimal(&mut r, stats.commands_received as u64);
        r.append(" pkts/cmds received");
        r
    } else {
        String::from_str("disconnected")
    }
}

/// "Restart server" in the settings: the port to send to the server, none
/// when it already runs on the requested port.
pub fn restart_server_port(status: &WebSocketStatus, requested_port: u16) -> (r: Option<u16>)
    ensures
        r == if status matches WebSocketStatus::Running { port, .. } && port == requested_port {
            None::<u16>
        } else {
            Some(requested_port)
        },
{
    match status {
        WebSocketStatus::Running { port, .. } => {
            if *port == requested_port {
                None
            } else {
                Some(requested_port)
            }
        },
        _ => Some(requested_port),
    }
}

/// The connection statistics. Times are readings of a monotonic clock in
/// nanoseconds.
pub struct StatsStore {
    pub ws_status: WebSocketStatus,
    /// Packets of the game have been seen.
    pub connected: bool,
    /// Game commands are being decoded.
    pub connection_active: bool,
    pub packets_received: usize,
    pub commands_received: usize,
    pub decryption_key_missing: usize,
    pub network_errors: usize,
    pub last_packet_time: Option<u64>,
    pub last_command_time: Option<u64>,
}

impl StatsStore {
    /// Statistics before anything was seen.
    pub fn new() -> (r: StatsStore)
        ensures
            r.ws_status is Pending,
            !r.connected,
            !r.connection_active,
            r.packets_received == 0,
            r.commands_received == 0,
            r.decryption_key_missing == 0,
            r.network_errors == 0,
            r.last_packet_time is None,
            r.last_command_time is None,
    {
        StatsStore {
            ws_status: WebSocketStatus::Pending,
            connected: false,
            connection_active: false,
            packets_received: 0,
            commands_received: 0,
            decryption_key_missing: 0,
            network_errors: 0,
            last_packet_time: None,
            last_command_time: None,
        }
    }
}

/// The counter that `metric` raises has room for it.
pub open spec fn metric_fits(stats: &StatsStore, metric: SnifferMetric) -> bool {
    match metric {
        SnifferMetric::NetworkPacketReceived => stats.packets_received < usize::MAX,
        SnifferMetric::GameCommandsReceived(n) => stats.commands_received + n <= usize::MAX,
        SnifferMetric::DecryptionKeyMissing => stats.decryption_key_missing < usize::MAX,
        SnifferMetric::NetworkError => stats.network_errors < usize::MAX,
        _ => true,
    }
}

/// Updates the statistics with a metric seen at time `now`. An established
/// connection counts as connected; a lost one as neither connected nor
/// active, with the packet and command counts cleared. A packet counts as
/// connected and records its time. Decoded commands (at least one) count as
/// connected and active and record their time. Failures are counted.
pub fn handle_sniffer_metric(stats: &mut StatsStore, metric: SnifferMetric, now: u64)
    requires
        metric_fits(old(stats), metric),
    ensures
        final(stats).ws_status == old(stats).ws_status,
        match metric {
            SnifferMetric::ConnectionEstablished => {
                &&& final(stats).connected
                &&& final(stats).connection_active == old(stats).connection_active
                &&& final(stats).packets_received == old(stats).packets_received
                &&& final(stats).commands_received == old(stats).commands_received
                &&& final(stats).decryption_key_missing == old(stats).decryption_key_missing
                &&& final(stats).network_errors == old(stats).network_errors
                &&& final(stats).last_packet_time == old(stats).last_packet_time
                &&& final(stats).last_command_time == old(stats).last_command_time
            },
            SnifferMetric::ConnectionDisconnected => {
                &&& !final(stats).connected
                &&& !final(stats).connection_active
                &&& final(stats).packets_received == 0
                &&& final(stats).commands_received == 0
                &&& final(stats).decryption_key_missing == old(stats).decryption_key_missing
                &&& final(stats).network_errors == old(stats).network_errors
                &&& final(stats).last_packet_time == old(stats).last_packet_time
                &&& final(stats).last_command_time == old(stats).last_command_time
            },
            SnifferMetric::NetworkPacketReceived => {
                &&& final(stats).connected
                &&& final(stats).connection_active == old(stats).connection_active
                &&& final(stats).packets_received == old(stats).packets_received + 1
                &&& final(stats).commands_received == old(stats).commands_received
                &&& final(stats).decryption_key_missing == old(stats).decryption_key_missing
                &&& final(stats).network_errors == old(stats).network_errors
                &&& final(stats).last_packet_time == Some(now)
                &&& final(stats).last_command_time == old(stats).last_command_time
            },
            SnifferMetric::GameCommandsReceived(n) => {
                &&& final(stats).connected == (n > 0 || old(stats).connected)
                &&& final(stats).connection_active == (n > 0 || old(stats).connection_active)
                &&& final(stats).packets_received == old(stats).packets_received
                &&& final(stats).commands_received == old(stats).commands_received + n
                &&& final(stats).decryption_key_missing == old(stats).decryption_key_missing
                &&& final(stats).network_errors == old(stats).network_errors
                &&& final(stats).last_packet_time == old(stats).last_packet_time
                &&& final(stats).last_command_time == if n > 0 {
                    Some(now)
                } else {
                    old(stats).last_command_time
                }
            },
            SnifferMetric::DecryptionKeyMissing => {
                &&& final(stats).connected == old(stats).connected
                &&& final(stats).connection_active == old(stats).connection_active
                &&& final(stats).packets_received == old(stats).packets_received
                &&& final(stats).commands_received == old(stats).commands_received
                &&& final(stats).decryption_key_missing == old(stats).decryption_key_missing + 1
                &&& final(stats).network_errors == old(stats).network_errors
                &&& final(stats).last_packet_time == old(stats).last_packet_time
                &&& final(stats).last_command_time == old(stats).last_command_time
            },
            SnifferMetric::NetworkError => {
                &&& final(stats).connected == old(stats).connected
                &&& final(stats).connection_active == old(stats).connection_active
                &&& final(stats).packets_received == old(stats).packets_received
                &&& final(stats).commands_received == old(stats).commands_received
                &&& final(stats).decryption_key_missing == old(stats).decryption_key_missing
                &&& final(stats).network_errors == old(stats).network_errors + 1
                &&& final(stats).last_packet_time == old(stats).last_packet_time
                &&& final(stats).last_command_time == old(stats).last_command_time
            },
        },
{
    match metric {
        SnifferMetric::ConnectionEstablished => {
            stats.connected = true;
        },
        SnifferMetric::ConnectionDisconnected => {
            stats.connected = false;
            stats.connection_active = false;
            stats.packets_received = 0;
            stats.commands_received = 0;
        },
        SnifferMetric::NetworkPacketReceived => {
            stats.connected = true;
            stats.last_packet_time = Some(now);
            stats.packets_received = stats.packets_received + 1;
        },
        SnifferMetric::GameCommandsReceived(n) => {
            if n > 0 {
                stats.connected = true;
                stats.connection_active = true;
                stats.commands_received = stats.commands_received + n;
                stats.last_command_time = Some(now);
            }
        },
        SnifferMetric::DecryptionKeyMissing => {
            stats.decryption_key_missing = stats.decryption_key_missing + 1;
        },
        SnifferMetric::NetworkError => {
            stats.network_errors = stats.network_errors + 1;
        },
    }
}

/// How long without packets or commands before the connection counts as
/// stale, in nanoseconds.
pub const STALE_AFTER_NANOS: u64 = 60_000_000_000;

/// More than the stale time passed from `then` to `now` (no time passed when
/// `then` is later).
pub open spec fn stale(then: u64, now: u64) -> bool {
    now > then && now - then > STALE_AFTER_NANOS
}

/// Marks a stale connection: more than a minute without packets clears the
/// connection and its counts; more than a minute without commands makes it
/// inactive.
pub fn handle_connection_check(stats: &mut StatsStore, now: u64)
    ensures
        final(stats).ws_status == old(stats).ws_status,
        final(stats).last_packet_time == old(stats).last_packet_time,
        final(stats).last_command_time == old(stats).last_command_time,
        final(stats).decryption_key_missing == old(stats).decryption_key_missing,
        final(stats).network_errors == old(stats).network_errors,
        ({
            let packets_stale = old(stats).last_packet_time matches Some(t) && stale(t, now);
            let commands_stale = old(stats).last_command_time matches Some(t) && stale(t, now);
            &&& final(stats).connected == (old(stats).connected && !packets_stale)
            &&& final(stats).connection_active == (old(stats).connection_active && !packets_stale
                && !commands_stale)
            &&& final(stats).packets_received == if packets_stale {
                0
            } else {
                old(stats).packets_received
            }
            &&& final(stats).commands_received == if packets_stale {
                0
            } else {
                old(stats).commands_received
            }
        }),
{
    if let Some(t) = stats.last_packet_time {
        if now > t && now - t > STALE_AFTER_NANOS {
            stats.connected = false;
            stats.connection_active = false;
            stats.packets_received = 0;
            stats.commands_received = 0;
        }
    }
    if let Some(t) = stats.last_command_time {
        if now > t && now - t > STALE_AFTER_NANOS {
            stats.connection_active = false;
        }
    }
}

/// The screen shown before the game is connected.
#[derive(Debug, Clone, Copy, PartialEq, Eq, Structural)]
pub struct WaitingScreen {}

impl WaitingScreen {
    /// The waiting screen.
    pub fn new() -> (r: WaitingScreen)
        ensures
            r == (WaitingScreen {}),
    {
        WaitingScreen {}
    }
}

/// The screen shown while the game is connected.
#[derive(Debug, Clone, Copy, PartialEq, Eq, Structural)]
pub struct ActiveScreen {}

impl ActiveScreen {
    /// The active screen.
    pub fn new() -> (r: ActiveScreen)
        ensures
            r == (ActiveScreen {}),
    {
        ActiveScreen {}
    }
}

/// The screen being shown.
#[derive(Debug, Clone, Copy, PartialEq, Eq, Structural)]
pub enum Screen {
    Waiting(WaitingScreen),
    Active(ActiveScreen),
}

/// Follows the connection: an active connection shows the active screen,
/// otherwise the waiting screen shows.
pub fn handle_screen_transitions(screen: &mut Screen, connection_active: bool)
    ensures
        connection_active ==> *final(screen) == Screen::Active(ActiveScreen {}),
        !connection_active ==> *final(screen) == Screen::Waiting(WaitingScreen {}),
{
    let is_waiting = match screen {
        Screen::Waiting(_) => true,
        Screen::Active(_) => false,
    };
    if connection_active && is_waiting {
        *screen = Screen::Active(ActiveScreen::new());
    } else if !connection_active && !is_waiting {
        *screen = Screen::Waiting(WaitingScreen::new());
    }
}

/// Messages about the window and its tray menu.
#[derive(Debug, Clone, Copy, PartialEq, Eq, Structural)]
pub enum WindowMessage {
    Hide,
    Show,
    ToggleMenu,
    ContextMenuShow,
    ContextMenuMinimize,
    ContextMenuQuit,
    ContextMenuCancelled,
}

/// What the window is to do.
#[derive(Debug, Clone, Copy, PartialEq, Eq, Structural)]
pub enum WindowAction {
    Nothing,
    HideWindow,
    ShowWindow,
    Exit,
}

/// Handles a window message: hiding and showing (also from the tray menu),
/// quitting, and opening or closing the settings.
pub fn handle_window_message(settings_open: &mut bool, msg: WindowMessage) -> (r: WindowAction)
    ensures
        *final(settings_open) == if msg == WindowMessage::ToggleMenu {
            !*old(settings_open)
        } else {
            *old(settings_open)
        },
        r == match msg {
            WindowMessage::Hide | WindowMessage::ContextMenuMinimize => WindowAction::HideWindow,
            WindowMessage::Show | WindowMessage::ContextMenuShow => WindowAction::ShowWindow,
            WindowMessage::ContextMenuQuit => WindowAction::Exit,
            WindowMessage::ToggleMenu | WindowMessage::ContextMenuCancelled => WindowAction::Nothing,
        },
{
    match msg {
        WindowMessage::Hide => WindowAction::HideWindow,
        WindowMessage::Show => WindowAction::ShowWindow,
        WindowMessage::ToggleMenu => {
            *settings_open = !*settings_open;
            WindowAction::Nothing
        },
        WindowMessage::ContextMenuShow => WindowAction::ShowWindow,
        WindowMessage::ContextMenuMinimize => WindowAction::HideWindow,
        WindowMessage::ContextMenuQuit => WindowAction::Exit,
        WindowMessage::ContextMenuCancelled => WindowAction::Nothing,
    }
}

/// How the window is shown.
#[derive(Debug, Clone, Copy, PartialEq, Eq, Structural)]
pub enum WindowMode {
    Hidden,
    Windowed,
    Minimized,
}

/// What a left click on the tray icon does to the window.
#[derive(Debug, Clone, Copy, PartialEq, Eq, Structural)]
pub enum TrayClickAction {
    Show,
    Hide,
    Minimize,
    Restore,
}

/// A left click on the tray icon: a hidden window is shown, a minimized
/// one restored, and a shown one hidden to the tray when minimizing goes
/// to the tray, else minimized.
pub fn tray_left_click(mode: WindowMode, minimize_to_tray: bool) -> (r: TrayClickAction)
    ensures
        r == match mode {
            WindowMode::Hidden => TrayClickAction::Show,
            WindowMode::Windowed => if minimize_to_tray {
                TrayClickAction::Hide
            } else {
                TrayClickAction::Minimize
            },
            WindowMode::Minimized => TrayClickAction::Restore,
        },
{
    match mode {
        WindowMode::Hidden => TrayClickAction::Show,
        WindowMode::Windowed => if minimize_to_tray {
            TrayClickAction::Hide
        } else {
            TrayClickAction::Minimize
        },
        WindowMode::Minimized => TrayClickAction::Restore,
    }
}

/// The first entry of the tray icon's menu: "Show Window" for a hidden
/// window, otherwise "Minimize to Tray"; "Quit" follows.
pub fn tray_menu_first_entry(mode: WindowMode) -> (r: (WindowMessage, &'static str))
    ensures
        mode == WindowMode::Hidden ==> r.0 == WindowMessage::ContextMenuShow && r.1@ == "Show Window"@,
        mode != WindowMode::Hidden ==> r.0 == WindowMessage::ContextMenuMinimize && r.1@ == "Minimize to Tray"@,
{
    if mode == WindowMode::Hidden {
        (WindowMessage::ContextMenuShow, "Show Window")
    } else {
        (WindowMessage::ContextMenuMinimize, "Minimize to Tray")
    }
}

/// A command of the window's system menu or title bar buttons.
#[derive(Debug, Clone, Copy, PartialEq, Eq, Structural)]
pub enum SystemCommand {
    Close,
    Minimize,
    Maximize,
    Restore,
    Other,
}

/// How a system command is answered: let it happen, or prevent it and
/// handle the given message instead.
#[derive(Debug, Clone, Copy, PartialEq, Eq, Structural)]
pub enum SystemCommandResponse {
    Allow,
    PreventWith(WindowMessage),
}

/// Closing hides the window to the tray when the settings ask for it on
/// close; minimizing does when they ask for it on minimize; everything else
/// is allowed.
pub fn system_command_response(
    command: SystemCommand,
    minimize_to_tray_on_close: bool,
    minimize_to_tray_on_minimize: bool,
) -> (r: SystemCommandResponse)
    ensures
        r == match command {
            SystemCommand::Close => if minimize_to_tray_on_close {
                SystemCommandResponse::PreventWith(WindowMessage::Hide)
            } else {
                SystemCommandResponse::Allow
            },
            SystemCommand::Minimize => if minimize_to_tray_on_minimize {
                SystemCommandResponse::PreventWith(WindowMessage::Hide)
            } else {
                SystemCommandResponse::Allow
            },
            _ => SystemCommandResponse::Allow,
        },
{
    match command {
        SystemCommand::Close => if minimize_to_tray_on_close {
            SystemCommandResponse::PreventWith(WindowMessage::Hide)
        } else {
            SystemCommandResponse::Allow
        },
        SystemCommand::Minimize => if minimize_to_tray_on_minimize {
            SystemCommandResponse::PreventWith(WindowMessage::Hide)
        } else {
            SystemCommandResponse::Allow
        },
        _ => SystemCommandResponse::Allow,
    }
}

/// How much is logged.
#[derive(Debug, Clone, Copy, PartialEq, Eq, Structural)]
pub enum LogLevel {
    Off,
    Error,
    Warn,
    Info,
    Debug,
    Trace,
}

/// Messages of the log viewer.
#[derive(Debug, Clone, Copy, PartialEq, Eq, Structural)]
pub enum LogMessage {
    /// Log at another level.
    LevelChanged(LogLevel),
    /// Save the log to a file.
    Export,
}

/// The filter directive that logs at `level`.
pub fn level_directive(level: LogLevel) -> (r: &'static str)
    ensures
        r@ == match level {
            LogLevel::Trace => "trace"@,
            LogLevel::Debug => "debug"@,
            LogLevel::Info => "info"@,
            LogLevel::Warn => "warn"@,
            LogLevel::Error => "error"@,
            LogLevel::Off => "off"@,
        },
{
    match level {
        LogLevel::Trace => "trace",
        LogLevel::Debug => "debug",
        LogLevel::Info => "info",
        LogLevel::Warn => "warn",
        LogLevel::Error => "error",
        LogLevel::Off => "off",
    }
}

/// The default filter directive for how often `-v` was given: this
/// program's own messages from "info" on, then everything from "info",
/// "debug" and "trace" on.
pub fn verbosity_directive(verbose: u8) -> (r: &'static str)
    ensures
        r@ == if verbose == 0 {
            "reliquary_archiver=info"@
        } else if verbose == 1 {
            "info"@
        } else if verbose == 2 {
            "debug"@
        } else {
            "trace"@
        },
{
    match verbose {
        0 => "reliquary_archiver=info",
        1 => "info",
        2 => "debug",
        _ => "trace",
    }
}

/// Messages of the waiting screen.
#[derive(Debug, Clone)]
pub enum WaitingMessage {
    /// A capture file was picked, or the picker was cancelled.
    PcapFileSelected(Option<String>),
}

/// How a background image fills the window.
#[derive(Debug, Clone, Copy, PartialEq, Eq, Structural)]
pub enum ImageFit {
    Fill,
    Contain,
    Cover,
    ScaleDown,
    /// At its own size, not scaled.
    Unscaled,
}

impl Default for ImageFit {
    fn default() -> (r: ImageFit)
        ensures
            r == ImageFit::Fill,
    {
        ImageFit::Fill
    }
}

/// The accounts the interface knows and the one it shows.
pub struct AccountSelection {
    pub accounts: HashSet<u32>,
    pub selected_account: Option<u32>,
    /// The export shown no longer matches the captured data.
    pub export_out_of_date: bool,
}

/// Messages about accounts.
#[derive(Debug, Clone, Copy, PartialEq, Eq, Structural)]
pub enum AccountMessage {
    /// A new account was seen.
    Discovered { uid: u32 },
    /// The user picked an account.
    Select(u32),
}

impl AccountSelection {
    /// No account yet.
    pub fn new() -> (r: AccountSelection)
        ensures
            r.accounts@ == Set::<u32>::empty(),
            r.selected_account is None,
            !r.export_out_of_date,
    {
        AccountSelection { accounts: HashSet::new(), selected_account: None, export_out_of_date: false }
    }

    /// Handles an account message; returns the account whose statistics
    /// and export are to be refreshed. A discovered account is added and
    /// selected; a picked account is selected only when it is known. A new
    /// selection marks the export out of date.
    pub fn handle_account_message(&mut self, msg: AccountMessage) -> (r: Option<u32>)
        ensures
            match msg {
                AccountMessage::Discovered { uid } => {
                    &&& final(self).accounts@ == old(self).accounts@.insert(uid)
                    &&& final(self).selected_account == Some(uid)
                    &&& final(self).export_out_of_date
                    &&& r == Some(uid)
                },
                AccountMessage::Select(uid) => {
                    &&& final(self).accounts@ == old(self).accounts@
                    &&& if old(self).accounts@.contains(uid) {
                        &&& final(self).selected_account == Some(uid)
                        &&& final(self).export_out_of_date
                        &&& r == Some(uid)
                    } else {
                        &&& final(self).selected_account == old(self).selected_account
                        &&& final(self).export_out_of_date == old(self).export_out_of_date
                        &&& r is None
                    }
                },
            },
    {
        match msg {
            AccountMessage::Discovered { uid } => {
                self.accounts.insert(uid);
                self.selected_account = Some(uid);
                self.export_out_of_date = true;
                Some(uid)
            },
            AccountMessage::Select(uid) => {
                if self.accounts.contains(&uid) {
                    self.selected_account = Some(uid);
                    self.export_out_of_date = true;
                    Some(uid)
                } else {
                    None
                }
            },
        }
    }

    /// Whether live events of account `uid` concern the interface: they do
    /// for the selected account, and for every account while none is
    /// selected.
    pub fn is_selected(&self, uid: u32) -> (r: bool)
        ensures
            r == (self.selected_account == Some(uid) || self.selected_account is None),
    {
        match self.selected_account {
            Some(s) => s == uid,
            None => true,
        }
    }
}

/// The export offered for download: a JSON file with the given name and
/// text.
pub fn json_export_file(name: String, content: String) -> (r: FileContainer)
    ensures
        r.name@ == name@,
        r.content@ == content@,
        r.ext.description@ == "JSON files"@,
        r.ext.extensions@.len() == 1,
        r.ext.extensions@[0]@ == "json"@,
{
    let ext = FileExtensions::of("JSON files", &["json"]);
    proof {
        reveal_strlit("JSON files");
        reveal_strlit("json");
    }
    FileContainer { name, content, ext }
}

/// What a live event of an account asks of the interface.
#[derive(Debug, Clone, Copy, PartialEq, Eq, Structural)]
pub enum ExportEventAction {
    /// The event concerns another account.
    Ignore,
    /// Refresh the statistics; an initial scan also becomes the export
    /// offered.
    Refresh { new_export: bool },
}

impl AccountSelection {
    /// A live event of account `uid` arrived: events of an account that is
    /// not shown are ignored; otherwise the export is out of date and the
    /// statistics are refreshed.
    pub fn on_export_event(&mut self, uid: u32, is_initial_scan: bool) -> (r: ExportEventAction)
        ensures
            final(self).accounts@ == old(self).accounts@,
            final(self).selected_account == old(self).selected_account,
            if old(self).selected_account == Some(uid) || old(self).selected_account is None {
                &&& final(self).export_out_of_date
                &&& r == ExportEventAction::Refresh { new_export: is_initial_scan }
            } else {
                &&& final(self).export_out_of_date == old(self).export_out_of_date
                &&& r == ExportEventAction::Ignore
            },
    {
        if !self.is_selected(uid) {
            return ExportEventAction::Ignore;
        }
        self.export_out_of_date = true;
        ExportEventAction::Refresh { new_export: is_initial_scan }
    }
}

/// What the waiting screen asks for.
#[derive(Debug, Clone)]
pub enum ScreenRequest {
    Nothing,
    /// Read the packets of this capture file.
    ProcessCapture(String),
}

impl WaitingScreen {
    /// A picked capture file is read when the program reads capture files
    /// (`pcap_enabled`); a cancelled pick does nothing.
    pub fn update(&mut self, msg: WaitingMessage, pcap_enabled: bool) -> (r: ScreenRequest)
        ensures
            match msg {
                WaitingMessage::PcapFileSelected(Some(path)) => if pcap_enabled {
                    r matches ScreenRequest::ProcessCapture(p) && p@ == path@
                } else {
                    r is Nothing
                },
                WaitingMessage::PcapFileSelected(None) => r is Nothing,
            },
    {
        match msg {
            WaitingMessage::PcapFileSelected(Some(path)) => if pcap_enabled {
                ScreenRequest::ProcessCapture(path)
            } else {
                ScreenRequest::Nothing
            },
            WaitingMessage::PcapFileSelected(None) => ScreenRequest::Nothing,
        }
    }
}

/// How the window first appears.
#[derive(Debug, Clone, Copy, PartialEq, Eq, Structural)]
pub enum StartupDisplay {
    /// Stay hidden in the tray.
    Hidden,
    Minimized,
    Shown,
}

/// The window starts shown, unless it is to start minimized: then it stays
/// in the tray when minimizing goes to the tray, else it is minimized.
pub fn startup_display(start_minimized: bool, minimize_to_tray_on_minimize: bool) -> (r: StartupDisplay)
    ensures
        r == if !start_minimized {
            StartupDisplay::Shown
        } else if minimize_to_tray_on_minimize {
            StartupDisplay::Hidden
        } else {
            StartupDisplay::Minimized
        },
{
    if start_minimized {
        if minimize_to_tray_on_minimize {
            StartupDisplay::Hidden
        } else {
            StartupDisplay::Minimized
        }
    } else {
        StartupDisplay::Shown
    }
}

/// The start-with-Windows setting after comparing it with the registry:
/// flipped when the registry disagrees, kept when it agrees or could not be
/// read.
pub fn reconcile_run_on_start(run_on_start: bool, agrees: Result<bool, crate::platform::RegistryError>) -> (r: bool)
    ensures
        r == match agrees {
            Ok(false) => !run_on_start,
            _ => run_on_start,
        },
{
    match agrees {
        Ok(false) => !run_on_start,
        _ => run_on_start,
    }
}

/// One button of a toggle group: the value it selects and its label.
#[derive(Debug, Clone)]
pub struct ToggleOption<T> {
    pub value: T,
    pub label: String,
}

impl<T> ToggleOption<T> {
    /// The option for `value`, labelled `label`.
    pub fn new(value: T, label: String) -> (r: ToggleOption<T>)
        ensures
            r.value == value,
            r.label@ == label@,
    {
        ToggleOption { value, label }
    }
}

/// Where the web socket server takes its port from: a fixed port given on
/// the command line, or the ports the interface sends.
#[derive(Debug, Clone, Copy, PartialEq, Eq, Structural)]
pub enum PortSource {
    Fixed(u16),
    Dynamic,
}

/// The port reported before the server first starts: the fixed port, or 0
/// while the interface has not sent one.
pub fn initial_port(source: PortSource) -> (r: u16)
    ensures
        r == match source {
            PortSource::Fixed(p) => p,
            PortSource::Dynamic => 0,
        },
{
    match source {
        PortSource::Fixed(p) => p,
        PortSource::Dynamic => 0,
    }
}

/// The message of a failure to listen: a port already in use asks the user
/// to close other instances or try another address; any other failure
/// keeps its own message.
pub fn bind_error_message(addr_in_use: bool, detail: String) -> (r: String)
    ensures
        addr_in_use ==> r@ == "Address already in use, please close any other instances of the application or try another address"@,
        !addr_in_use ==> r@ == detail@,
{
    if addr_in_use {
        String::from_str("Address already in use, please close any other instances of the application or try another address")
    } else {
        detail
    }
}

/// The address the web socket server listens on: every interface, at
/// `port`.
pub fn listen_address(port: u16) -> (r: String)
    ensures
        r@ == "0.0.0.0:"@ + crate::text::decimal(port as nat),
{
    let mut r = String::from_str("0.0.0.0:");
    proof {
        reveal_strlit("0.0.0.0:");
    }
    push_decimal(&mut r, port as u64);
    r
}

/// Messages about the export offered for download.
pub enum ExportMessage {
    /// New item counts.
    Stats(ExportStats),
    /// A new export, already written as JSON text under its file name.
    New { name: String, content: String },
    /// Ask the capture worker for a fresh export.
    Refresh,
}

/// What the interface shows of the export.
pub struct ExportView {
    pub stats: ExportStats,
    pub json_export: Option<FileContainer>,
    pub out_of_date: bool,
}

impl ExportView {
    /// No export yet.
    pub fn new() -> (r: ExportView)
        ensures
            r.stats == ExportStats::zero_spec(),
            r.json_export is None,
            !r.out_of_date,
    {
        ExportView { stats: ExportStats::zero(), json_export: None, out_of_date: false }
    }

    /// Handles an export message; returns whether a fresh export is to be
    /// requested from the capture worker. New counts are shown; a new export
    /// becomes the JSON file offered and is up to date; a refresh is
    /// requested only when the worker is running.
    pub fn handle_export_message(&mut self, msg: ExportMessage, worker_running: bool) -> (r: bool)
        ensures
            match msg {
                ExportMessage::Stats(st) => {
                    &&& final(self).stats == st
                    &&& final(self).json_export == old(self).json_export
                    &&& final(self).out_of_date == old(self).out_of_date
                    &&& !r
                },
                ExportMessage::New { name, content } => {
                    &&& final(self).stats == old(self).stats
                    &&& (final(self).json_export matches Some(f) && f.name@ == name@ && f.content@ == content@
                        && f.ext.description@ == "JSON files"@ && f.ext.extensions@.len() == 1
                        && f.ext.extensions@[0]@ == "json"@)
                    &&& !final(self).out_of_date
                    &&& !r
                },
                ExportMessage::Refresh => {
                    &&& final(self).stats == old(self).stats
                    &&& final(self).json_export == old(self).json_export
                    &&& final(self).out_of_date == old(self).out_of_date
                    &&& r == worker_running
                },
            },
    {
        match msg {
            ExportMessage::Stats(st) => {
                self.stats = st;
                false
            },
            ExportMessage::New { name, content } => {
                self.json_export = Some(json_export_file(name, content));
                self.out_of_date = false;
                false
            },
            ExportMessage::Refresh => worker_running,
        }
    }
}

} // verus!
