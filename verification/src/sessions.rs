//! Listing, checking and disconnecting tunnel sessions.
//!
//! The daemon enumerates session object identifiers; per session, two
//! further property reads yield its status triple and creation timestamp.
//! As with configurations, the remote reads are made by the unverified
//! runner and folded here: one failed read aborts the whole listing, and
//! partial results are never returned.  The disconnect sweep over all
//! sessions is deliberately best-effort: every session is attempted, and the
//! report names exactly the sessions whose disconnect call failed, rather
//! than stopping at the first failure.

use vstd::prelude::*;
use vstd::string::StrSliceExecFns;
use vstd::string::StringExecFns;

use crate::errors::{OrchestratorError, RpcErrorKind};
use crate::registry::all_fetches_ok;

verus! {

/// One live (or recently live) tunnel session, as listed.  `path` is the
/// opaque object identifier; the status codes, message and creation
/// timestamp are snapshots read at query time.
#[derive(Debug, PartialEq)]
pub struct OpenVPN3Session {
    pub path: String,
    pub major_code: u32,
    pub minor_code: u32,
    pub status_message: String,
    pub session_created: u64,
}

/// The property reads made on one session object: its status triple and its
/// creation timestamp.
#[derive(Debug, PartialEq)]
pub struct SessionReadings {
    pub major_code: u32,
    pub minor_code: u32,
    pub status_message: String,
    pub session_created: u64,
}

/// A handle on one session, by its object identifier.
#[derive(Debug, PartialEq)]
pub struct Session {
    pub path: String,
}

impl Session {
    pub fn new(path: String) -> (s: Session)
        ensures
            s.path == path,
    {
        Session { path }
    }

    /// The notice line recorded when log forwarding is switched on for this
    /// session; the caller prints it.
    pub fn forward_logs(&self) -> (line: String)
        ensures
            line@ == "Forwarding logs for session: "@ + self.path@,
    {
        let mut line = String::from_str("Forwarding logs for session: ");
        line.append(self.path.as_str());
        line
    }
}

/// Fold the enumerated session identifiers and the per-session property
/// reads into the session listing.  The listing keeps the daemon's
/// enumeration order and pairs each identifier with its own readings; the
/// first failed read aborts the listing with that read's error.
pub fn collect_sessions(paths: &Vec<String>, fetched: &Vec<Result<SessionReadings, RpcErrorKind>>) -> (r:
    Result<Vec<OpenVPN3Session>, OrchestratorError>)
    requires
        paths@.len() == fetched@.len(),
    ensures
        (r is Ok) <==> all_fetches_ok(fetched@),
        r matches Ok(sessions) ==> {
            &&& sessions@.len() == paths@.len()
            &&& forall|i: int|
                0 <= i < paths@.len() ==> sessions@[i] == (OpenVPN3Session {
                    path: paths@[i],
                    major_code: fetched@[i]->Ok_0.major_code,
                    minor_code: fetched@[i]->Ok_0.minor_code,
                    status_message: fetched@[i]->Ok_0.status_message,
                    session_created: fetched@[i]->Ok_0.session_created,
                })
        },
        r matches Err(e) ==> exists|i: int|
            {
                &&& 0 <= i < fetched@.len()
                &&& fetched@[i] is Err
                &&& e == (OrchestratorError::Rpc { kind: fetched@[i]->Err_0 })
                &&& forall|j: int| 0 <= j < i ==> fetched@[j] is Ok
            },
{
    let mut sessions: Vec<OpenVPN3Session> = Vec::new();
    let n = paths.len();
    let mut i: usize = 0;
    while i < n
        invariant
            n == paths@.len(),
            paths@.len() == fetched@.len(),
            i <= n,
            sessions@.len() == i,
            forall|j: int| 0 <= j < i ==> fetched@[j] is Ok,
            forall|j: int|
                0 <= j < i ==> sessions@[j] == (OpenVPN3Session {
                    path: paths@[j],
                    major_code: fetched@[j]->Ok_0.major_code,
                    minor_code: fetched@[j]->Ok_0.minor_code,
                    status_message: fetched@[j]->Ok_0.status_message,
                    session_created: fetched@[j]->Ok_0.session_created,
                }),
        decreases n - i,
    {
        match &fetched[i] {
            Ok(readings) => {
                sessions.push(OpenVPN3Session {
                    path: paths[i].clone(),
                    major_code: readings.major_code,
                    minor_code: readings.minor_code,
                    status_message: readings.status_message.clone(),
                    session_created: readings.session_created,
                });
            },
            Err(kind) => {
                return Err(OrchestratorError::Rpc { kind: *kind });
            },
        }
        i = i + 1;
    }
    Ok(sessions)
}

/// Whether any session exists at all: the cheap check that decides whether
/// an in-progress tunnel should block an application-exit request.
pub fn has_session(session_paths: &Vec<String>) -> (b: bool)
    ensures
        b <==> session_paths@.len() != 0,
{
    !session_paths.is_empty()
}

/// The sessions whose disconnect call failed, in sweep order.
pub open spec fn failed_disconnects(
    paths: Seq<String>,
    results: Seq<Result<(), RpcErrorKind>>,
) -> Seq<String>
    decreases paths.len(),
{
    if paths.len() == 0 {
        Seq::empty()
    } else {
        failed_disconnects(paths.drop_last(), results.drop_last()) + if results.last() is Err {
            seq![paths.last()]
        } else {
            Seq::empty()
        }
    }
}

/// The outcome of a best-effort disconnect sweep: how many sessions were
/// attempted — always all of them — and which of them failed.
#[derive(Debug, PartialEq)]
pub struct DisconnectReport {
    pub attempted: usize,
    pub failed: Vec<String>,
}

/// No disconnect failed exactly when no failure was recorded.
pub proof fn lemma_failed_disconnects_empty_iff_all_ok(
    paths: Seq<String>,
    results: Seq<Result<(), RpcErrorKind>>,
)
    requires
        paths.len() == results.len(),
    ensures
        (failed_disconnects(paths, results).len() == 0) <==> (forall|i: int|
            0 <= i < results.len() ==> results[i] is Ok),
    decreases paths.len(),
{
    if paths.len() == 0 {
    } else {
        lemma_failed_disconnects_empty_iff_all_ok(paths.drop_last(), results.drop_last());
        assert(forall|i: int| 0 <= i < results.len() - 1 ==> results.drop_last()[i] == results[i]);
        if forall|i: int| 0 <= i < results.len() - 1 ==> results[i] is Ok {
            if results.last() is Ok {
                assert(forall|i: int| 0 <= i < results.len() ==> results[i] is Ok);
            }
        }
    }
}

/// Aggregate a best-effort disconnect sweep.  Every session in the list was
/// attempted — one disconnect outcome per session — and the report names
/// exactly the sessions whose disconnect failed, in order.  A failure never
/// prevents the remaining sessions from being attempted; with the outcomes
/// supplied one per session, that is so by construction.
pub fn disconnect_all_report(paths: &Vec<String>, results: &Vec<Result<(), RpcErrorKind>>) -> (rep:
    DisconnectReport)
    requires
        paths@.len() == results@.len(),
    ensures
        rep.attempted == paths@.len(),
        rep.failed@ == failed_disconnects(paths@, results@),
        (rep.failed@.len() == 0) <==> (forall|i: int|
            0 <= i < results@.len() ==> results@[i] is Ok),
{
    let n = paths.len();
    let mut failed: Vec<String> = Vec::new();
    let mut i: usize = 0;
    while i < n
        invariant
            n == paths@.len(),
            paths@.len() == results@.len(),
            i <= n,
            failed@ == failed_disconnects(paths@.take(i as int), results@.take(i as int)),
        decreases n - i,
    {
        proof {
            assert(paths@.take(i + 1).drop_last() =~= paths@.take(i as int));
            assert(results@.take(i + 1).drop_last() =~= results@.take(i as int));
            assert(paths@.take(i + 1).last() == paths@[i as int]);
            assert(results@.take(i + 1).last() == results@[i as int]);
        }
        if results[i].is_err() {
            failed.push(paths[i].clone());
            proof {
                assert(failed@ =~= failed_disconnects(
                    paths@.take(i as int),
                    results@.take(i as int),
                ) + seq![paths@[i as int]]);
            }
        } else {
            proof {
                assert(failed@ =~= failed_disconnects(
                    paths@.take(i as int),
                    results@.take(i as int),
                ) + Seq::<String>::empty());
            }
        }
        i = i + 1;
    }
    proof {
        assert(paths@.take(n as int) =~= paths@);
        assert(results@.take(n as int) =~= results@);
        lemma_failed_disconnects_empty_iff_all_ok(paths@, results@);
    }
    DisconnectReport { attempted: n, failed }
}

} // verus!
