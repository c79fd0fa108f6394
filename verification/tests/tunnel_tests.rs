use ovpn3_orchestrator::tunnel::{
    HandshakeAction, HandshakeEvent, TunnelError, TunnelHandshake, READY_RETRY_DELAY_MS,
};

fn sess() -> String {
    String::from("/net/openvpn/v3/sessions/abc")
}

#[test]
fn happy_path_reports_session_without_any_sleep() {
    // Creation succeeds, readiness succeeds on the first attempt, log
    // forwarding succeeds: the session path comes back and no retry pause
    // was ever requested.
    let mut h = TunnelHandshake::new();
    assert_eq!(h.next_action(), HandshakeAction::CallNewTunnel);
    h.on_event(HandshakeEvent::NewTunnelOk { session_path: sess() });
    assert_eq!(h.next_action(), HandshakeAction::CallReady { session_path: sess() });
    h.on_event(HandshakeEvent::ReadyOk);
    assert_eq!(
        h.next_action(),
        HandshakeAction::CallLogForward { session_path: sess(), enable: true }
    );
    h.on_event(HandshakeEvent::LogForwardOk);
    assert_eq!(
        h.next_action(),
        HandshakeAction::ReportEstablished { session_path: sess(), logs_forwarded: true }
    );
}

#[test]
fn ready_succeeds_on_third_attempt_within_budget() {
    // Readiness fails twice, then succeeds on the third and last permitted
    // attempt: the session path is still reported.
    let mut h = TunnelHandshake::new();
    h.on_event(HandshakeEvent::NewTunnelOk { session_path: sess() });
    h.on_event(HandshakeEvent::ReadyFailed);
    assert_eq!(
        h.next_action(),
        HandshakeAction::SleepThenRetryReady {
            session_path: sess(),
            delay_ms: READY_RETRY_DELAY_MS,
        }
    );
    h.on_event(HandshakeEvent::ReadyFailed);
    assert_eq!(
        h.next_action(),
        HandshakeAction::SleepThenRetryReady {
            session_path: sess(),
            delay_ms: READY_RETRY_DELAY_MS,
        }
    );
    h.on_event(HandshakeEvent::ReadyOk);
    h.on_event(HandshakeEvent::LogForwardOk);
    assert_eq!(
        h.next_action(),
        HandshakeAction::ReportEstablished { session_path: sess(), logs_forwarded: true }
    );
}

#[test]
fn ready_failing_on_all_attempts_times_out() {
    // All three readiness attempts fail: the handshake ends in a terminal
    // failure, not a reported session path.
    let mut h = TunnelHandshake::new();
    h.on_event(HandshakeEvent::NewTunnelOk { session_path: sess() });
    h.on_event(HandshakeEvent::ReadyFailed);
    h.on_event(HandshakeEvent::ReadyFailed);
    h.on_event(HandshakeEvent::ReadyFailed);
    assert_eq!(
        h.next_action(),
        HandshakeAction::ReportFailure { error: TunnelError::ReadyTimedOut }
    );
}

#[test]
fn creation_failure_is_terminal() {
    let mut h = TunnelHandshake::new();
    h.on_event(HandshakeEvent::NewTunnelFailed);
    assert_eq!(
        h.next_action(),
        HandshakeAction::ReportFailure { error: TunnelError::CreationFailed }
    );
}

#[test]
fn log_forward_failure_is_non_fatal() {
    // The session is still established, merely without forwarded logs.
    let mut h = TunnelHandshake::new();
    h.on_event(HandshakeEvent::NewTunnelOk { session_path: sess() });
    h.on_event(HandshakeEvent::ReadyOk);
    h.on_event(HandshakeEvent::LogForwardFailed);
    assert_eq!(
        h.next_action(),
        HandshakeAction::ReportEstablished { session_path: sess(), logs_forwarded: false }
    );
}
