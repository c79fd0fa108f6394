//! The error taxonomy of the orchestrator.
//!
//! Remote-call failures are reported with a typed error so that callers can
//! distinguish an empty result from a failed operation. A lost bus connection
//! is not represented here: the process treats it as fatal.

use vstd::prelude::*;

verus! {

/// Why a single remote call against the daemon failed.
#[derive(Clone, Copy, Debug, PartialEq, Eq, Structural)]
pub enum RpcErrorKind {
    /// The bus did not answer within the call timeout.
    Timeout,
    /// The daemon answered with a rejection.
    Rejected,
    /// The addressed remote object does not exist.
    NotFound,
}

/// The failure modes the orchestrator reports to its callers.
#[derive(Clone, Copy, Debug, PartialEq, Eq, Structural)]
pub enum OrchestratorError {
    /// The shared bus connection could not be established.
    Connection,
    /// A specific remote call failed.
    Rpc { kind: RpcErrorKind },
    /// A retried operation failed on every permitted attempt; carries the
    /// kind of the last failure.
    RetryExhausted { last: RpcErrorKind },
    /// A local file could not be read while importing a configuration.
    FileRead,
}

/// Surface the outcome of a single un-retried remote call — connect,
/// disconnect — to the caller as a typed result, so that a failure is
/// distinguishable from success instead of being downgraded to an empty
/// success value.
pub fn rpc_outcome(outcome: Result<(), RpcErrorKind>) -> (r: Result<(), OrchestratorError>)
    ensures
        (r is Ok) <==> (outcome is Ok),
        outcome matches Err(kind) ==> r == Err::<(), OrchestratorError>(
            OrchestratorError::Rpc { kind },
        ),
{
    match outcome {
        Ok(()) => Ok(()),
        Err(kind) => Err(OrchestratorError::Rpc { kind }),
    }
}

} // verus!
