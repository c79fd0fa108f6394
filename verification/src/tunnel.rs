//! The tunnel-creation handshake.
//!
//! Bringing a new tunnel session up takes several remote calls that can fail
//! independently: the creation call returns the session's object identifier,
//! a bounded readiness wait absorbs the daemon's backend startup latency, and
//! a final call enables log forwarding.  The steps are driven here as a state
//! machine: each state has exactly one pending action, the unverified runner
//! performs the action on the bus and reports its outcome as an event, and
//! [`TunnelHandshake::on_event`] takes the next state according to
//! [`step`].  Log-forwarding failure is non-fatal: the session is still
//! reported as established, merely without forwarded logs.

use vstd::prelude::*;

verus! {

/// Total number of attempts the readiness wait may make.
pub const READY_MAX_ATTEMPTS: u32 = 3;

/// Pause between consecutive readiness attempts, in milliseconds.
pub const READY_RETRY_DELAY_MS: u64 = 3000;

/// Where the handshake stands.  `session_path` is the object identifier the
/// creation call returned; `failed_attempts` counts readiness attempts that
/// have already failed.
#[derive(Debug, PartialEq)]
pub enum HandshakeState {
    /// Nothing has been asked of the daemon yet.
    Requested,
    /// The session object exists; readiness has not been confirmed.
    Created { session_path: String },
    /// At least one readiness attempt failed; the wait is pausing before the
    /// next attempt.
    AwaitingReady { session_path: String, failed_attempts: u32 },
    /// The session is ready; log forwarding is being enabled.
    LogForwarding { session_path: String },
    /// Terminal success: the session identifier is the caller's durable
    /// handle.  `logs_forwarded` records whether log forwarding was enabled.
    Established { session_path: String, logs_forwarded: bool },
    /// Terminal failure: the creation call itself failed.
    CreationFailed,
    /// Terminal failure: every readiness attempt failed.
    ReadyTimedOut { session_path: String },
}

/// The outcome of the bus call the runner was asked to make.
#[derive(Debug, PartialEq)]
pub enum HandshakeEvent {
    NewTunnelOk { session_path: String },
    NewTunnelFailed,
    ReadyOk,
    ReadyFailed,
    LogForwardOk,
    LogForwardFailed,
}

/// Why a handshake ended without an established session.
#[derive(Clone, Copy, Debug, PartialEq, Eq, Structural)]
pub enum TunnelError {
    CreationFailed,
    ReadyTimedOut,
}

/// What the runner must do next.  Calls address the named session object;
/// the two report actions end the handshake.
#[derive(Debug, PartialEq)]
pub enum HandshakeAction {
    /// Ask the daemon to create a session from the chosen configuration.
    CallNewTunnel,
    /// Ask the new session whether it is ready.
    CallReady { session_path: String },
    /// Pause for `delay_ms`, then ask again whether the session is ready.
    SleepThenRetryReady { session_path: String, delay_ms: u64 },
    /// Enable log forwarding on the session.
    CallLogForward { session_path: String, enable: bool },
    /// Hand the session identifier to the caller.
    ReportEstablished { session_path: String, logs_forwarded: bool },
    /// Report that no session could be established.
    ReportFailure { error: TunnelError },
}

impl HandshakeState {
    /// The count of failed readiness attempts stays within the budget; the
    /// waiting state exists only after a failure.
    pub open spec fn wf(self) -> bool {
        match self {
            HandshakeState::AwaitingReady { failed_attempts, .. } => 1 <= failed_attempts
                < READY_MAX_ATTEMPTS,
            _ => true,
        }
    }

    /// The session identifier the handshake is carrying, if any.
    pub open spec fn session_path(self) -> Option<Seq<char>> {
        match self {
            HandshakeState::Requested => None,
            HandshakeState::Created { session_path } => Some(session_path@),
            HandshakeState::AwaitingReady { session_path, .. } => Some(session_path@),
            HandshakeState::LogForwarding { session_path } => Some(session_path@),
            HandshakeState::Established { session_path, .. } => Some(session_path@),
            HandshakeState::CreationFailed => None,
            HandshakeState::ReadyTimedOut { session_path } => Some(session_path@),
        }
    }
}

/// Whether `ev` answers the action pending in state `s`.
pub open spec fn expects(s: HandshakeState, ev: HandshakeEvent) -> bool {
    match (s, ev) {
        (HandshakeState::Requested, HandshakeEvent::NewTunnelOk { .. }) => true,
        (HandshakeState::Requested, HandshakeEvent::NewTunnelFailed) => true,
        (HandshakeState::Created { .. }, HandshakeEvent::ReadyOk) => true,
        (HandshakeState::Created { .. }, HandshakeEvent::ReadyFailed) => true,
        (HandshakeState::AwaitingReady { .. }, HandshakeEvent::ReadyOk) => true,
        (HandshakeState::AwaitingReady { .. }, HandshakeEvent::ReadyFailed) => true,
        (HandshakeState::LogForwarding { .. }, HandshakeEvent::LogForwardOk) => true,
        (HandshakeState::LogForwarding { .. }, HandshakeEvent::LogForwardFailed) => true,
        _ => false,
    }
}

/// The transition relation of the handshake.  For a pair that `expects`
/// rules out, the state is left unchanged.
pub open spec fn step(s: HandshakeState, ev: HandshakeEvent) -> HandshakeState {
    match (s, ev) {
        (HandshakeState::Requested, HandshakeEvent::NewTunnelOk { session_path }) => (
        HandshakeState::Created { session_path }),
        (HandshakeState::Requested, HandshakeEvent::NewTunnelFailed) => HandshakeState::CreationFailed,
        (HandshakeState::Created { session_path }, HandshakeEvent::ReadyOk) => (
        HandshakeState::LogForwarding { session_path }),
        (HandshakeState::Created { session_path }, HandshakeEvent::ReadyFailed) => (
        HandshakeState::AwaitingReady { session_path, failed_attempts: 1 }),
        (
            HandshakeState::AwaitingReady { session_path, .. },
            HandshakeEvent::ReadyOk,
        ) => (HandshakeState::LogForwarding { session_path }),
        (
            HandshakeState::AwaitingReady { session_path, failed_attempts },
            HandshakeEvent::ReadyFailed,
        ) => if failed_attempts + 1 < READY_MAX_ATTEMPTS {
            HandshakeState::AwaitingReady {
                session_path,
                failed_attempts: (failed_attempts + 1) as u32,
            }
        } else {
            HandshakeState::ReadyTimedOut { session_path }
        },
        (HandshakeState::LogForwarding { session_path }, HandshakeEvent::LogForwardOk) => (
        HandshakeState::Established { session_path, logs_forwarded: true }),
        (HandshakeState::LogForwarding { session_path }, HandshakeEvent::LogForwardFailed) => (
        HandshakeState::Established { session_path, logs_forwarded: false }),
        (other, _) => other,
    }
}

/// The single action pending in state `s`.
pub open spec fn pending_action(s: HandshakeState) -> HandshakeAction {
    match s {
        HandshakeState::Requested => HandshakeAction::CallNewTunnel,
        HandshakeState::Created { session_path } => (HandshakeAction::CallReady { session_path }),
        HandshakeState::AwaitingReady { session_path, .. } => (HandshakeAction::SleepThenRetryReady {
            session_path,
            delay_ms: READY_RETRY_DELAY_MS,
        }),
        HandshakeState::LogForwarding { session_path } => (HandshakeAction::CallLogForward {
            session_path,
            enable: true,
        }),
        HandshakeState::Established { session_path, logs_forwarded } => (
        HandshakeAction::ReportEstablished { session_path, logs_forwarded }),
        HandshakeState::CreationFailed => (HandshakeAction::ReportFailure {
            error: TunnelError::CreationFailed,
        }),
        HandshakeState::ReadyTimedOut { .. } => (HandshakeAction::ReportFailure {
            error: TunnelError::ReadyTimedOut,
        }),
    }
}

/// One in-progress tunnel creation.
#[derive(Debug, PartialEq)]
pub struct TunnelHandshake {
    pub state: HandshakeState,
}

impl TunnelHandshake {
    pub fn new() -> (h: TunnelHandshake)
        ensures
            h.state == HandshakeState::Requested,
            h.state.wf(),
    {
        TunnelHandshake { state: HandshakeState::Requested }
    }

    /// What the runner must do next in the current state.
    pub fn next_action(&self) -> (a: HandshakeAction)
        requires
            self.state.wf(),
        ensures
            a == pending_action(self.state),
    {
        match &self.state {
            HandshakeState::Requested => HandshakeAction::CallNewTunnel,
            HandshakeState::Created { session_path } => HandshakeAction::CallReady {
                session_path: session_path.clone(),
            },
            HandshakeState::AwaitingReady { session_path, .. } => HandshakeAction::SleepThenRetryReady {
                session_path: session_path.clone(),
                delay_ms: READY_RETRY_DELAY_MS,
            },
            HandshakeState::LogForwarding { session_path } => HandshakeAction::CallLogForward {
                session_path: session_path.clone(),
                enable: true,
            },
            HandshakeState::Established { session_path, logs_forwarded } => HandshakeAction::ReportEstablished {
                session_path: session_path.clone(),
                logs_forwarded: *logs_forwarded,
            },
            HandshakeState::CreationFailed => HandshakeAction::ReportFailure {
                error: TunnelError::CreationFailed,
            },
            HandshakeState::ReadyTimedOut { .. } => HandshakeAction::ReportFailure {
                error: TunnelError::ReadyTimedOut,
            },
        }
    }

    /// Advance by one reported outcome.
    pub fn on_event(&mut self, ev: HandshakeEvent)
        requires
            old(self).state.wf(),
            expects(old(self).state, ev),
        ensures
            final(self).state == step(old(self).state, ev),
            final(self).state.wf(),
    {
        let next = match (&self.state, ev) {
            (HandshakeState::Requested, HandshakeEvent::NewTunnelOk { session_path }) => HandshakeState::Created {
                session_path,
            },
            (HandshakeState::Requested, HandshakeEvent::NewTunnelFailed) => HandshakeState::CreationFailed,
            (HandshakeState::Created { session_path }, HandshakeEvent::ReadyOk) => HandshakeState::LogForwarding {
                session_path: session_path.clone(),
            },
            (HandshakeState::Created { session_path }, HandshakeEvent::ReadyFailed) => HandshakeState::AwaitingReady {
                session_path: session_path.clone(),
                failed_attempts: 1,
            },
            (
                HandshakeState::AwaitingReady { session_path, .. },
                HandshakeEvent::ReadyOk,
            ) => HandshakeState::LogForwarding { session_path: session_path.clone() },
            (
                HandshakeState::AwaitingReady { session_path, failed_attempts },
                HandshakeEvent::ReadyFailed,
            ) => {
                if *failed_attempts + 1 < READY_MAX_ATTEMPTS {
                    HandshakeState::AwaitingReady {
                        session_path: session_path.clone(),
                        failed_attempts: *failed_attempts + 1,
                    }
                } else {
                    HandshakeState::ReadyTimedOut { session_path: session_path.clone() }
                }
            },
            (HandshakeState::LogForwarding { session_path }, HandshakeEvent::LogForwardOk) => HandshakeState::Established {
                session_path: session_path.clone(),
                logs_forwarded: true,
            },
            (HandshakeState::LogForwarding { session_path }, HandshakeEvent::LogForwardFailed) => HandshakeState::Established {
                session_path: session_path.clone(),
                logs_forwarded: false,
            },
            _ => unreached(),
        };
        self.state = next;
    }
}

/// The handshake never invents a session identifier: the creation response
/// introduces it, and every later step carries that same identifier along
/// unchanged.
pub proof fn lemma_session_path_provenance(s: HandshakeState, ev: HandshakeEvent)
    requires
        s.wf(),
        expects(s, ev),
    ensures
        ev matches HandshakeEvent::NewTunnelOk { session_path } ==> step(s, ev).session_path()
            == Some(session_path@),
        !(ev is NewTunnelOk) ==> step(s, ev).session_path() == s.session_path(),
{
}

/// The readiness wait stays within its budget: it times out only on the
/// failure of the last permitted attempt, and the count of failed attempts
/// never reaches the budget while the wait goes on.
pub proof fn lemma_ready_budget(s: HandshakeState, ev: HandshakeEvent)
    requires
        s.wf(),
        expects(s, ev),
    ensures
        step(s, ev) is ReadyTimedOut ==> ev is ReadyFailed && (s matches HandshakeState::AwaitingReady {
            failed_attempts,
            ..
        } && failed_attempts == READY_MAX_ATTEMPTS - 1),
        step(s, ev) matches HandshakeState::AwaitingReady { failed_attempts, .. }
            ==> failed_attempts < READY_MAX_ATTEMPTS,
{
}

/// Log-forwarding failure is non-fatal: whatever the outcome of the
/// log-forward call, the session is established under the identifier already
/// at hand, and only the `logs_forwarded` flag records the difference.
pub proof fn lemma_log_forward_nonfatal(s: HandshakeState, ev: HandshakeEvent)
    requires
        s.wf(),
        expects(s, ev),
        s is LogForwarding,
    ensures
        step(s, ev) matches HandshakeState::Established { session_path, logs_forwarded }
            && Some(session_path@) == s.session_path() && (logs_forwarded <==> ev
            is LogForwardOk),
{
}

} // verus!
