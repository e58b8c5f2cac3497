//! The decisions taken on each decoded packet during a capture: routing
//! commands to the account exporters, the connection metrics, and when a
//! capture stops.
use std::collections::HashSet;

use vstd::prelude::*;

use crate::accounts::{account_active, spec_register_uid, state_of, AccountsV, MultiAccountManager};
use crate::command::{spec_command_ok, spec_read_command};
use crate::database::Database;
use crate::exporter::{spec_export, OptimizerExporter};
use crate::models::{views, Export, OptimizerEvent};
use crate::proto::GameCommand;

verus! {

/// A connection-level event of the packet sniffer.
#[derive(Debug, Clone, Copy, PartialEq, Eq, Structural)]
pub enum ConnectionEvent {
    HandshakeEstablished { conv_id: u32 },
    Disconnected,
    Other,
}

/// Why a game command could not be decoded.
#[derive(Debug, Clone, Copy, PartialEq, Eq, Structural)]
pub enum CommandFailure {
    /// No key was known to decrypt it.
    DecryptionKeyMissing,
    /// A client packet arrived before the server's new session key; it is
    /// decoded again later.
    VersionMismatch,
    /// Any other failure.
    Other,
}

/// Why a network packet could not be decoded at all.
#[derive(Debug, Clone, Copy, PartialEq, Eq, Structural)]
pub enum NetworkFailure {
    /// No key was known to decrypt a command in it.
    DecryptionKeyMissing,
    /// The connection-level packet was malformed.
    ConnectionPacket,
    /// Any other failure.
    Other,
}

/// One packet decoded by the sniffer.
pub enum DecodedPacket {
    Connection(ConnectionEvent),
    Commands { conv_id: u32, result: Result<GameCommand, CommandFailure> },
}

/// A change of the connection statistics.
#[derive(Debug, Clone, Copy, PartialEq, Eq, Structural)]
pub enum SnifferMetric {
    ConnectionEstablished,
    ConnectionDisconnected,
    NetworkPacketReceived,
    GameCommandsReceived(usize),
    DecryptionKeyMissing,
    NetworkError,
}

/// What the sniffer's answer to one network packet adds to the metrics: the
/// packet itself, then either how many commands it held or why it failed.
pub open spec fn spec_received_metrics(received: Result<usize, NetworkFailure>) -> Seq<SnifferMetric> {
    seq![
        SnifferMetric::NetworkPacketReceived,
        match received {
            Ok(n) => SnifferMetric::GameCommandsReceived(n),
            Err(NetworkFailure::DecryptionKeyMissing) => SnifferMetric::DecryptionKeyMissing,
            Err(_) => SnifferMetric::NetworkError,
        },
    ]
}

/// The metrics of one network packet, given how many commands the sniffer
/// decoded from it or why it failed.
pub fn received_metrics(received: Result<usize, NetworkFailure>) -> (r: Vec<SnifferMetric>)
    ensures
        r@ == spec_received_metrics(received),
{
    let second = match received {
        Ok(n) => SnifferMetric::GameCommandsReceived(n),
        Err(NetworkFailure::DecryptionKeyMissing) => SnifferMetric::DecryptionKeyMissing,
        Err(_) => SnifferMetric::NetworkError,
    };
    let r = vec![SnifferMetric::NetworkPacketReceived, second];
    assert(r@ =~= spec_received_metrics(received));
    r
}

/// The metric a decoded packet reports, if any.
pub open spec fn spec_packet_metric(p: DecodedPacket) -> Option<SnifferMetric> {
    match p {
        DecodedPacket::Connection(ConnectionEvent::HandshakeEstablished { .. }) => Some(
            SnifferMetric::ConnectionEstablished,
        ),
        DecodedPacket::Connection(ConnectionEvent::Disconnected) => Some(
            SnifferMetric::ConnectionDisconnected,
        ),
        DecodedPacket::Connection(ConnectionEvent::Other) => None,
        DecodedPacket::Commands { result: Ok(_), .. } => None,
        DecodedPacket::Commands { result: Err(CommandFailure::DecryptionKeyMissing), .. } => Some(
            SnifferMetric::DecryptionKeyMissing,
        ),
        DecodedPacket::Commands { result: Err(_), .. } => Some(SnifferMetric::NetworkError),
    }
}

/// The account a command reveals: the id in a decoded token reply.
pub open spec fn revealed_uid(cmd: GameCommand) -> Option<u32> {
    match cmd {
        GameCommand::PlayerGetToken(Some(t)) => Some(t.uid),
        _ => None,
    }
}

/// The accounts after registering the account a command reveals, if any.
pub open spec fn after_reveal(v: AccountsV, conv: u32, cmd: GameCommand) -> AccountsV {
    match revealed_uid(cmd) {
        Some(uid) => spec_register_uid(v, conv, uid),
        None => v,
    }
}

/// Routing a decoded command: the account it reveals is registered on its
/// connection, then it is read by its connection's exporter.
pub open spec fn spec_route(db: &Database, v: AccountsV, conv: u32, cmd: GameCommand) -> AccountsV {
    let v1 = after_reveal(v, conv, cmd);
    AccountsV {
        exporters: v1.exporters.insert(conv, spec_read_command(db, state_of(v1, conv), cmd).0),
        ..v1
    }
}

/// A decoded command can be read by its connection's exporter.
pub open spec fn packet_readable(db: &Database, v: AccountsV, p: DecodedPacket) -> bool {
    match p {
        DecodedPacket::Commands { conv_id, result: Ok(cmd) } => spec_command_ok(db, state_of(v, conv_id), cmd),
        _ => true,
    }
}

/// What the capture worker makes of one decoded packet.
pub struct PacketOutcome {
    /// The metric to report, if any.
    pub metric: Option<SnifferMetric>,
    /// The account the packet revealed, to announce.
    pub discovered: Option<u32>,
    /// The live events of the exporter that read the packet's command.
    pub events: Vec<OptimizerEvent>,
}

impl MultiAccountManager {
    /// Handles one decoded packet for the capture worker: reports its
    /// metric; a decoded command is routed (its account registered, then it
    /// is read by its connection's exporter) and the account it reveals is
    /// announced.
    pub fn worker_on_packet(&mut self, packet: DecodedPacket) -> (r: PacketOutcome)
        requires
            old(self).wf(),
            packet_readable(old(self).database, old(self)@, packet),
        ensures
            final(self).wf(),
            final(self).database == old(self).database,
            final(self).initial_keys@ == old(self).initial_keys@,
            r.metric == spec_packet_metric(packet),
            match packet {
                DecodedPacket::Commands { conv_id, result: Ok(cmd) } => {
                    &&& final(self)@ == spec_route(old(self).database, old(self)@, conv_id, cmd)
                    &&& r.discovered == revealed_uid(cmd)
                    &&& views(r.events@) == spec_read_command(
                        old(self).database,
                        state_of(old(self)@, conv_id),
                        cmd,
                    ).1
                },
                _ => final(self)@ == old(self)@ && r.discovered is None && r.events@.len() == 0,
            },
    {
        match packet {
            DecodedPacket::Connection(ConnectionEvent::HandshakeEstablished { .. }) => PacketOutcome {
                metric: Some(SnifferMetric::ConnectionEstablished),
                discovered: None,
                events: Vec::new(),
            },
            DecodedPacket::Connection(ConnectionEvent::Disconnected) => PacketOutcome {
                metric: Some(SnifferMetric::ConnectionDisconnected),
                discovered: None,
                events: Vec::new(),
            },
            DecodedPacket::Connection(ConnectionEvent::Other) => PacketOutcome {
                metric: None,
                discovered: None,
                events: Vec::new(),
            },
            DecodedPacket::Commands { conv_id, result: Ok(cmd) } => {
                let discovered = self.route_reveal(conv_id, &cmd);
                let events = self.read_command(conv_id, cmd);
                PacketOutcome { metric: None, discovered, events }
            },
            DecodedPacket::Commands { result: Err(CommandFailure::DecryptionKeyMissing), .. } => PacketOutcome {
                metric: Some(SnifferMetric::DecryptionKeyMissing),
                discovered: None,
                events: Vec::new(),
            },
            DecodedPacket::Commands { result: Err(_), .. } => PacketOutcome {
                metric: Some(SnifferMetric::NetworkError),
                discovered: None,
                events: Vec::new(),
            },
        }
    }

    /// Whether `packet` can be handed to [`Self::worker_on_packet`] or
    /// [`LiveSession::on_packet`]: a decoded command must be readable by
    /// its connection's exporter.
    pub fn can_read(&self, packet: &DecodedPacket) -> (r: bool)
        requires
            self.wf(),
        ensures
            r == packet_readable(self.database, self@, *packet),
    {
        match packet {
            DecodedPacket::Commands { conv_id, result: Ok(cmd) } => match self.exporters.get(conv_id) {
                Some(e) => e.command_ok(cmd),
                None => {
                    let fresh = OptimizerExporter::new(self.database);
                    fresh.command_ok(cmd)
                },
            },
            _ => true,
        }
    }

    /// Registers the account that `cmd` reveals, if any, on `conv_id`.
    fn route_reveal(&mut self, conv_id: u32, cmd: &GameCommand) -> (r: Option<u32>)
        requires
            old(self).wf(),
        ensures
            final(self).wf(),
            final(self).database == old(self).database,
            final(self).initial_keys@ == old(self).initial_keys@,
            final(self)@ == after_reveal(old(self)@, conv_id, *cmd),
            r == revealed_uid(*cmd),
    {
        match cmd {
            GameCommand::PlayerGetToken(Some(t)) => {
                let uid = t.uid;
                self.register_uid(conv_id, uid);
                Some(uid)
            },
            _ => None,
        }
    }
}

/// Whether a capture goes on.
#[derive(Debug, Clone, Copy, PartialEq, Eq, Structural)]
pub enum LoopControl {
    Continue,
    Stop,
}

/// A live capture of the command-line program: the sources found broken,
/// the account seen last, and whether it streams (and so never stops by
/// itself).
pub struct LiveSession {
    pub poisoned_sources: HashSet<u64>,
    pub latest_uid: Option<u32>,
    pub streaming: bool,
}

/// What a live capture does with one decoded packet.
pub struct SessionStep {
    pub control: LoopControl,
    /// The account to select, when the packet revealed one.
    pub selected: Option<u32>,
    /// The live events of the exporter that read the packet's command.
    pub events: Vec<OptimizerEvent>,
}

impl LiveSession {
    /// A session that has seen nothing yet.
    pub fn new(streaming: bool) -> (r: LiveSession)
        ensures
            r.poisoned_sources@ == Set::<u64>::empty(),
            r.latest_uid is None,
            r.streaming == streaming,
    {
        LiveSession { poisoned_sources: HashSet::new(), latest_uid: None, streaming }
    }

    /// Whether packets from `source_id` are skipped.
    pub fn is_poisoned(&self, source_id: u64) -> (r: bool)
        ensures
            r == self.poisoned_sources@.contains(source_id),
    {
        self.poisoned_sources.contains(&source_id)
    }

    /// A network packet from `source_id` could not be decoded: a malformed
    /// connection packet marks its source as broken and the capture goes on
    /// with the other sources; any other failure ends the capture.
    pub fn on_network_error(&mut self, source_id: u64, failure: NetworkFailure) -> (r: LoopControl)
        ensures
            failure == NetworkFailure::ConnectionPacket ==> r == LoopControl::Continue
                && final(self).poisoned_sources@ == old(self).poisoned_sources@.insert(source_id),
            failure != NetworkFailure::ConnectionPacket ==> r == LoopControl::Stop
                && final(self).poisoned_sources@ == old(self).poisoned_sources@,
            final(self).latest_uid == old(self).latest_uid,
            final(self).streaming == old(self).streaming,
    {
        match failure {
            NetworkFailure::ConnectionPacket => {
                self.poisoned_sources.insert(source_id);
                LoopControl::Continue
            },
            _ => LoopControl::Stop,
        }
    }

    /// Handles one decoded packet of a live capture. A decoded command
    /// registers the account it reveals (which becomes the latest and is
    /// selected); the end of the login sequence stops a capture that does
    /// not stream before it is read; otherwise the command is read by its
    /// connection's exporter. A command that could not be decoded stops the
    /// capture, unless it only arrived out of order.
    pub fn on_packet(&mut self, manager: &mut MultiAccountManager, packet: DecodedPacket) -> (r: SessionStep)
        requires
            old(manager).wf(),
            packet_readable(old(manager).database, old(manager)@, packet),
        ensures
            final(manager).wf(),
            final(manager).database == old(manager).database,
            final(manager).initial_keys@ == old(manager).initial_keys@,
            final(self).poisoned_sources@ == old(self).poisoned_sources@,
            final(self).streaming == old(self).streaming,
            match packet {
                DecodedPacket::Commands { conv_id, result: Ok(cmd) } => {
                    let v1 = after_reveal(old(manager)@, conv_id, cmd);
                    let stops = !old(self).streaming && cmd is PlayerLoginFinish;
                    &&& r.selected == revealed_uid(cmd)
                    &&& final(self).latest_uid == match revealed_uid(cmd) {
                        Some(uid) => Some(uid),
                        None => old(self).latest_uid,
                    }
                    &&& stops ==> r.control == LoopControl::Stop && final(manager)@ == v1
                        && r.events@.len() == 0
                    &&& !stops ==> r.control == LoopControl::Continue && final(manager)@ == spec_route(
                        old(manager).database,
                        old(manager)@,
                        conv_id,
                        cmd,
                    ) && views(r.events@) == spec_read_command(
                        old(manager).database,
                        state_of(old(manager)@, conv_id),
                        cmd,
                    ).1
                },
                DecodedPacket::Commands { result: Err(e), .. } => {
                    &&& r.control == if e == CommandFailure::VersionMismatch {
                        LoopControl::Continue
                    } else {
                        LoopControl::Stop
                    }
                    &&& final(manager)@ == old(manager)@
                    &&& final(self).latest_uid == old(self).latest_uid
                    &&& r.selected is None
                    &&& r.events@.len() == 0
                },
                DecodedPacket::Connection(_) => {
                    &&& r.control == LoopControl::Continue
                    &&& final(manager)@ == old(manager)@
                    &&& final(self).latest_uid == old(self).latest_uid
                    &&& r.selected is None
                    &&& r.events@.len() == 0
                },
            },
    {
        match packet {
            DecodedPacket::Connection(_) => SessionStep {
                control: LoopControl::Continue,
                selected: None,
                events: Vec::new(),
            },
            DecodedPacket::Commands { conv_id, result: Ok(cmd) } => {
                let selected = manager.route_reveal(conv_id, &cmd);
                if let Some(uid) = selected {
                    self.latest_uid = Some(uid);
                }
                let finish = match cmd {
                    GameCommand::PlayerLoginFinish => true,
                    _ => false,
                };
                if !self.streaming && finish {
                    return SessionStep { control: LoopControl::Stop, selected, events: Vec::new() };
                }
                let events = manager.read_command(conv_id, cmd);
                SessionStep { control: LoopControl::Continue, selected, events }
            },
            DecodedPacket::Commands { result: Err(e), .. } => {
                let control = match e {
                    CommandFailure::VersionMismatch => LoopControl::Continue,
                    _ => LoopControl::Stop,
                };
                SessionStep { control, selected: None, events: Vec::new() }
            },
        }
    }

    /// After the packets of one network packet: a capture that does not
    /// stream stops once the latest account's exporter is initialized.
    pub fn after_packets(&self, manager: &MultiAccountManager) -> (r: LoopControl)
        requires
            manager.wf(),
        ensures
            r == if !self.streaming && (self.latest_uid matches Some(uid) && account_active(manager@, uid)
                && manager@.exporters[manager@.uid_to_conv[uid]].initialized) {
                LoopControl::Stop
            } else {
                LoopControl::Continue
            },
    {
        if self.streaming {
            return LoopControl::Continue;
        }
        match self.latest_uid {
            Some(uid) => match manager.get_account_exporter(uid) {
                Some(e) => if e.is_initialized() {
                    LoopControl::Stop
                } else {
                    LoopControl::Continue
                },
                None => LoopControl::Continue,
            },
            None => LoopControl::Continue,
        }
    }

    /// The export of the latest account, when its connection still has an
    /// exporter and something was recorded.
    pub fn final_export(&self, manager: &MultiAccountManager) -> (r: Option<Export>)
        requires
            manager.wf(),
        ensures
            match self.latest_uid {
                Some(uid) if account_active(manager@, uid) => match r {
                    Some(e) => spec_export(manager@.exporters[manager@.uid_to_conv[uid]]) == Some(e@),
                    None => spec_export(manager@.exporters[manager@.uid_to_conv[uid]]) is None,
                },
                _ => r is None,
            },
    {
        match self.latest_uid {
            Some(uid) => match manager.get_account_exporter(uid) {
                Some(e) => e.export(),
                None => None,
            },
            None => None,
        }
    }
}

/// What reading a capture file does after one decoded packet.
#[derive(Debug, Clone, Copy, PartialEq, Eq, Structural)]
pub enum FileStep {
    /// Go on with the next decoded packet.
    Next,
    /// Stop reading the file.
    Stop,
    /// Skip the rest of this network packet and go on with the next one.
    SkipRest,
}

/// One decoded packet of a capture file: a decoded command is read and ends
/// the reading once initialization has finished; a command that only
/// arrived out of order skips the rest of its network packet; any other
/// failure ends the reading.
pub fn file_process_packet(exporter: &mut OptimizerExporter, packet: DecodedPacket) -> (r: FileStep)
    requires
        old(exporter).wf(),
        packet matches DecodedPacket::Commands { result: Ok(cmd), .. } ==> spec_command_ok(
            old(exporter).database,
            old(exporter)@,
            cmd,
        ),
    ensures
        final(exporter).wf(),
        final(exporter).database == old(exporter).database,
        match packet {
            DecodedPacket::Commands { result: Ok(cmd), .. } => {
                &&& final(exporter)@ == spec_read_command(old(exporter).database, old(exporter)@, cmd).0
                &&& r == if final(exporter)@.initialized {
                    FileStep::Stop
                } else {
                    FileStep::Next
                }
            },
            DecodedPacket::Commands { result: Err(e), .. } => {
                &&& final(exporter)@ == old(exporter)@
                &&& r == if e == CommandFailure::VersionMismatch {
                    FileStep::SkipRest
                } else {
                    FileStep::Stop
                }
            },
            DecodedPacket::Connection(_) => final(exporter)@ == old(exporter)@ && r == FileStep::Next,
        },
{
    match packet {
        DecodedPacket::Commands { result: Ok(cmd), .. } => {
            exporter.read_command(cmd);
            if exporter.is_initialized() {
                FileStep::Stop
            } else {
                FileStep::Next
            }
        },
        DecodedPacket::Commands { result: Err(CommandFailure::VersionMismatch), .. } => FileStep::SkipRest,
        DecodedPacket::Commands { result: Err(_), .. } => FileStep::Stop,
        DecodedPacket::Connection(_) => FileStep::Next,
    }
}

/// How a subscriber to an account's live events follows its exporter.
#[derive(Debug, Clone, Copy, PartialEq, Eq, Structural)]
pub struct SubscriptionChange {
    /// Subscribe to the account's current exporter.
    pub subscribe: bool,
    /// The account reconnected: the old subscription is dropped first.
    pub reconnection: bool,
}

/// Following account events: `subscribed` is the connection whose exporter
/// the subscription follows, if any, `current` the connection of the
/// account's exporter now. A missing subscription is made; one that follows
/// another connection is replaced, as a reconnection; one that follows the
/// current connection stays.
pub fn subscription_change(subscribed: Option<u32>, current: u32) -> (r: SubscriptionChange)
    ensures
        r == match subscribed {
            None => SubscriptionChange { subscribe: true, reconnection: false },
            Some(c) => if c == current {
                SubscriptionChange { subscribe: false, reconnection: false }
            } else {
                SubscriptionChange { subscribe: true, reconnection: true }
            },
        },
{
    match subscribed {
        None => SubscriptionChange { subscribe: true, reconnection: false },
        Some(c) => if c == current {
            SubscriptionChange { subscribe: false, reconnection: false }
        } else {
            SubscriptionChange { subscribe: true, reconnection: true }
        },
    }
}

/// Where the command-line program reads packets from.
#[derive(Debug, Clone)]
pub enum CaptureMode {
    /// From the network, live.
    Live,
    /// From a libpcap capture file.
    Pcap(String),
    /// From a Windows packet monitor trace.
    Etl(String),
}

impl CaptureMode {
    /// A capture file given on the command line is read, a libpcap one
    /// before a trace; otherwise the capture is live.
    pub fn from_args(pcap: Option<String>, etl: Option<String>) -> (r: CaptureMode)
        ensures
            match pcap {
                Some(p) => r matches CaptureMode::Pcap(q) && q@ == p@,
                None => match etl {
                    Some(e) => r matches CaptureMode::Etl(q) && q@ == e@,
                    None => r is Live,
                },
            },
    {
        match pcap {
            Some(p) => CaptureMode::Pcap(p),
            None => match etl {
                Some(e) => CaptureMode::Etl(e),
                None => CaptureMode::Live,
            },
        }
    }
}

} // verus!
