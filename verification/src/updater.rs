//! The self-update flow of the interface: checking for a newer release,
//! asking the user, updating and restarting.
use vstd::prelude::*;

use crate::text::str_eq;

verus! {

/// Where the update flow stands.
#[derive(Debug, Clone)]
pub enum UpdateState {
    Checking,
    Available { current_version: String, latest_version: String },
    Updating,
    UpToDate,
    Failed(String),
}

/// Messages of the update flow.
#[derive(Debug)]
pub enum UpdateMessage {
    /// Start a check for a newer release.
    PerformCheck,
    /// The check's outcome: the current and the newer version when there is
    /// one, or why the check failed.
    CheckResult(Result<Option<(String, String)>, String>),
    /// The user agreed to update.
    Confirm,
    /// The user declined.
    Dismiss,
    /// The update's outcome.
    Complete(Result<(), String>),
}

/// What the caller is to do after an update message.
#[derive(Debug, Clone, Copy, PartialEq, Eq, Structural)]
pub enum UpdateAction {
    Nothing,
    /// Check for a newer release in the background.
    CheckForUpdates,
    /// Go on as if the user had agreed.
    SendConfirm,
    /// Download and install the update in the background.
    RunUpdate,
    /// The update is installed and the new version is marked to be started:
    /// exit.
    ExitForRestart,
}

/// Handles an update message. A check starts over in the checking state.
/// A newer version is offered to the user, or installed at once when no
/// consent is needed; no newer version means up to date; a failed check
/// fails. Agreeing starts the update; declining closes the flow. A finished
/// update requests that the new version be started after exit, and exits;
/// a failed one fails. Only a finished update touches `spawn`.
pub fn handle_update_message(
    msg: UpdateMessage,
    state: &mut Option<UpdateState>,
    skip_consent: bool,
    spawn: &mut SpawnAfterExit,
) -> (r: UpdateAction)
    ensures
        final(spawn)@ == if msg matches UpdateMessage::Complete(Ok(_)) {
            spawn_op(old(spawn)@, SpawnOp::Request)
        } else {
            old(spawn)@
        },
        match msg {
            UpdateMessage::PerformCheck => *final(state) == Some(UpdateState::Checking) && r
                == UpdateAction::CheckForUpdates,
            UpdateMessage::CheckResult(Ok(Some((current, latest)))) => if skip_consent {
                *final(state) == *old(state) && r == UpdateAction::SendConfirm
            } else {
                *final(state) == Some(
                    UpdateState::Available { current_version: current, latest_version: latest },
                ) && r == UpdateAction::Nothing
            },
            UpdateMessage::CheckResult(Ok(None)) => *final(state) == Some(UpdateState::UpToDate) && r
                == UpdateAction::Nothing,
            UpdateMessage::CheckResult(Err(e)) => *final(state) == Some(UpdateState::Failed(e)) && r
                == UpdateAction::Nothing,
            UpdateMessage::Confirm => *final(state) == Some(UpdateState::Updating) && r
                == UpdateAction::RunUpdate,
            UpdateMessage::Dismiss => *final(state) is None && r == UpdateAction::Nothing,
            UpdateMessage::Complete(Ok(())) => *final(state) == *old(state) && r
                == UpdateAction::ExitForRestart,
            UpdateMessage::Complete(Err(e)) => *final(state) == Some(UpdateState::Failed(e)) && r
                == UpdateAction::Nothing,
        },
{
    match msg {
        UpdateMessage::PerformCheck => {
            *state = Some(UpdateState::Checking);
            UpdateAction::CheckForUpdates
        },
        UpdateMessage::CheckResult(result) => match result {
            Ok(Some((current, latest))) => {
                if skip_consent {
                    UpdateAction::SendConfirm
                } else {
                    *state = Some(
                        UpdateState::Available { current_version: current, latest_version: latest },
                    );
                    UpdateAction::Nothing
                }
            },
            Ok(None) => {
                *state = Some(UpdateState::UpToDate);
                UpdateAction::Nothing
            },
            Err(e) => {
                *state = Some(UpdateState::Failed(e));
                UpdateAction::Nothing
            },
        },
        UpdateMessage::Confirm => {
            *state = Some(UpdateState::Updating);
            UpdateAction::RunUpdate
        },
        UpdateMessage::Dismiss => {
            *state = None;
            UpdateAction::Nothing
        },
        UpdateMessage::Complete(result) => match result {
            Ok(()) => {
                request_spawn_after_exit(spawn);
                UpdateAction::ExitForRestart
            },
            Err(e) => {
                *state = Some(UpdateState::Failed(e));
                UpdateAction::Nothing
            },
        },
    }
}

/// The message that reports how an update went: `Ok(true)` when a new
/// version was installed, `Ok(false)` when the updater changed nothing
/// (which counts as a failure), or why it failed.
pub fn completion_message(result: Result<bool, String>) -> (r: UpdateMessage)
    ensures
        match result {
            Ok(true) => r == UpdateMessage::Complete(Ok(())),
            Ok(false) => r matches UpdateMessage::Complete(Err(e)) && e@
                == "Update reported no changes"@,
            Err(e) => r == UpdateMessage::Complete(Err(e)),
        },
{
    match result {
        Ok(true) => UpdateMessage::Complete(Ok(())),
        Ok(false) => {
            let e = String::from_str("Update reported no changes");
            proof {
                reveal_strlit("Update reported no changes");
            }
            UpdateMessage::Complete(Err(e))
        },
        Err(e) => UpdateMessage::Complete(Err(e)),
    }
}

/// A newer release that can be installed.
#[derive(Debug, Clone)]
pub struct UpdateInfo {
    pub current_version: String,
    pub latest_version: String,
    pub download_url: String,
}

/// The message that reports a check: the two versions of a newer release,
/// none when there is no newer one, or why the check failed.
pub fn check_message(result: Result<Option<UpdateInfo>, String>) -> (r: UpdateMessage)
    ensures
        match result {
            Ok(Some(info)) => r == UpdateMessage::CheckResult(
                Ok(Some((info.current_version, info.latest_version))),
            ),
            Ok(None) => r == UpdateMessage::CheckResult(Ok(None)),
            Err(e) => r == UpdateMessage::CheckResult(Err(e)),
        },
{
    match result {
        Ok(Some(info)) => UpdateMessage::CheckResult(Ok(Some((info.current_version, info.latest_version)))),
        Ok(None) => UpdateMessage::CheckResult(Ok(None)),
        Err(e) => UpdateMessage::CheckResult(Err(e)),
    }
}

/// The name of the release build to update to, by capture backend: the
/// libpcap build, else the pktmon build, else none.
pub fn identifier(pcap: bool, pktmon: bool) -> (r: Option<&'static str>)
    ensures
        match r {
            Some(s) => (pcap && s@ == "pcap"@) || (!pcap && pktmon && s@ == "pktmon"@),
            None => !pcap && !pktmon,
        },
{
    if pcap {
        proof {
            reveal_strlit("pcap");
        }
        Some("pcap")
    } else if pktmon {
        proof {
            reveal_strlit("pktmon");
        }
        Some("pktmon")
    } else {
        None
    }
}

/// Whether the updated program is to be started once the interface exits.
/// Once requested, the request stays: nothing clears it.
pub struct SpawnAfterExit {
    requested: bool,
}

impl View for SpawnAfterExit {
    type V = bool;

    /// Whether a start was requested.
    closed spec fn view(&self) -> bool {
        self.requested
    }
}

impl SpawnAfterExit {
    /// Nothing requested yet.
    pub fn new() -> (r: SpawnAfterExit)
        ensures
            r@ == spawn_flag_after(Seq::empty()),
            !r@,
    {
        SpawnAfterExit { requested: false }
    }
}

/// What can be done with the flag.
#[derive(Debug, Clone, Copy, PartialEq, Eq, Structural)]
pub enum SpawnOp {
    /// [`request_spawn_after_exit`].
    Request,
    /// [`should_spawn_after_exit`].
    Query,
}

/// The flag after one operation: a request sets it, a query leaves it.
pub open spec fn spawn_op(flag: bool, op: SpawnOp) -> bool {
    match op {
        SpawnOp::Request => true,
        SpawnOp::Query => flag,
    }
}

/// The flag of a new [`SpawnAfterExit`] after the operations `ops`, in
/// order.
pub open spec fn spawn_flag_after(ops: Seq<SpawnOp>) -> bool
    decreases ops.len(),
{
    if ops.len() == 0 {
        false
    } else {
        spawn_op(spawn_flag_after(ops.drop_last()), ops.last())
    }
}

/// Spawn law: the updated program is started after the interface exits
/// exactly when a start was requested at some point before; queries never
/// change the answer, and nothing clears a request.
pub proof fn law_spawn_exactly_after_a_request(ops: Seq<SpawnOp>)
    ensures
        spawn_flag_after(ops) == ops.contains(SpawnOp::Request),
    decreases ops.len(),
{
    if ops.len() > 0 {
        let t = ops.drop_last();
        law_spawn_exactly_after_a_request(t);
        if t.contains(SpawnOp::Request) {
            let i = choose|i: int| 0 <= i < t.len() && t[i] == SpawnOp::Request;
            assert(ops[i] == SpawnOp::Request);
        }
        if ops.contains(SpawnOp::Request) && ops.last() != SpawnOp::Request {
            let i = choose|i: int| 0 <= i < ops.len() && ops[i] == SpawnOp::Request;
            assert(t[i] == SpawnOp::Request);
        }
        if ops.last() == SpawnOp::Request {
            assert(ops[ops.len() - 1] == SpawnOp::Request);
        }
    }
}

/// Asks for the updated program to be started after the interface exits.
pub fn request_spawn_after_exit(flag: &mut SpawnAfterExit)
    ensures
        final(flag)@ == spawn_op(old(flag)@, SpawnOp::Request),
        final(flag)@,
{
    flag.requested = true;
}

/// Whether the updated program is to be started after the interface exits.
pub fn should_spawn_after_exit(flag: &SpawnAfterExit) -> (r: bool)
    ensures
        r == flag@,
{
    flag.requested
}

/// Whether the command-line program updates itself before capturing: not
/// when the interface runs (it checks by itself), not when updates were
/// turned off on the command line, and not when the environment variable
/// `NO_SELF_UPDATE` is "1" (as it is for the program an update starts).
pub fn should_self_update(gui_mode: bool, no_update: bool, no_self_update_env: Option<&str>) -> (r: bool)
    ensures
        r == (!gui_mode && !no_update && !(no_self_update_env matches Some(v) && v@ == "1"@)),
{
    if gui_mode || no_update {
        return false;
    }
    match no_self_update_env {
        Some(v) => {
            proof {
                reveal_strlit("1");
            }
            !str_eq(v, "1")
        },
        None => true,
    }
}

} // verus!
