use ovpn3_orchestrator::errors::{rpc_outcome, OrchestratorError, RpcErrorKind};
use ovpn3_orchestrator::sessions::{
    collect_sessions, disconnect_all_report, has_session, OpenVPN3Session, Session,
    SessionReadings,
};

fn s1() -> String {
    String::from("/net/openvpn/v3/sessions/s1")
}

fn s2() -> String {
    String::from("/net/openvpn/v3/sessions/s2")
}

#[test]
fn listing_pairs_each_session_with_its_readings() {
    let paths = vec![s1(), s2()];
    let fetched: Vec<Result<SessionReadings, RpcErrorKind>> = vec![
        Ok(SessionReadings {
            major_code: 2,
            minor_code: 7,
            status_message: String::from("connected"),
            session_created: 1700000000,
        }),
        Ok(SessionReadings {
            major_code: 3,
            minor_code: 22,
            status_message: String::from("https://example/auth"),
            session_created: 1700000100,
        }),
    ];
    let listing = collect_sessions(&paths, &fetched).unwrap();
    assert_eq!(
        listing,
        vec![
            OpenVPN3Session {
                path: s1(),
                major_code: 2,
                minor_code: 7,
                status_message: String::from("connected"),
                session_created: 1700000000,
            },
            OpenVPN3Session {
                path: s2(),
                major_code: 3,
                minor_code: 22,
                status_message: String::from("https://example/auth"),
                session_created: 1700000100,
            },
        ]
    );
}

#[test]
fn one_failed_read_aborts_the_session_listing() {
    // Partial results are never returned.
    let paths = vec![s1(), s2()];
    let fetched: Vec<Result<SessionReadings, RpcErrorKind>> = vec![
        Err(RpcErrorKind::Timeout),
        Ok(SessionReadings {
            major_code: 2,
            minor_code: 7,
            status_message: String::from("connected"),
            session_created: 1700000000,
        }),
    ];
    assert_eq!(
        collect_sessions(&paths, &fetched),
        Err(OrchestratorError::Rpc { kind: RpcErrorKind::Timeout })
    );
}

#[test]
fn has_session_checks_for_any_enumerated_session() {
    assert!(!has_session(&vec![]));
    assert!(has_session(&vec![s1()]));
    assert!(has_session(&vec![s1(), s2()]));
}

#[test]
fn best_effort_disconnect_attempts_every_session_and_reports_failures() {
    // The first session's disconnect fails: the second is still attempted
    // and the report names exactly the failed one.
    let paths = vec![s1(), s2()];
    let results: Vec<Result<(), RpcErrorKind>> = vec![Err(RpcErrorKind::Rejected), Ok(())];
    let report = disconnect_all_report(&paths, &results);
    assert_eq!(report.attempted, 2);
    assert_eq!(report.failed, vec![s1()]);
}

#[test]
fn clean_disconnect_sweep_reports_no_failures() {
    let paths = vec![s1(), s2()];
    let results: Vec<Result<(), RpcErrorKind>> = vec![Ok(()), Ok(())];
    let report = disconnect_all_report(&paths, &results);
    assert_eq!(report.attempted, 2);
    assert!(report.failed.is_empty());
}

#[test]
fn session_handle_keeps_its_identifier() {
    let session = Session::new(s1());
    assert_eq!(session.path, s1());
    assert_eq!(
        session.forward_logs(),
        "Forwarding logs for session: /net/openvpn/v3/sessions/s1"
    );
}

#[test]
fn single_call_outcomes_stay_typed() {
    assert_eq!(rpc_outcome(Ok(())), Ok(()));
    assert_eq!(
        rpc_outcome(Err(RpcErrorKind::NotFound)),
        Err(OrchestratorError::Rpc { kind: RpcErrorKind::NotFound })
    );
    assert_eq!(
        rpc_outcome(Err(RpcErrorKind::Timeout)),
        Err(OrchestratorError::Rpc { kind: RpcErrorKind::Timeout })
    );
}
