//! Listing and importing VPN configuration objects.
//!
//! The daemon enumerates configuration object identifiers; one further read
//! per identifier yields the configuration's name and use count.  The reads
//! are remote calls made by the unverified runner; their outcomes are folded
//! here into the caller-facing listing.  A single failed read aborts the
//! whole listing — partial results are never returned — and the caller
//! retries the entire sequence from scratch under its retry budget.
//! Importing sends a configuration file's full text to the daemon; reading
//! the file is the runner's task, and an unreadable file is reported as
//! [`OrchestratorError::FileRead`] without any call to the daemon.

use vstd::prelude::*;

use crate::errors::{OrchestratorError, RpcErrorKind};

verus! {

/// One stored VPN configuration known to the daemon.  `path` is the opaque
/// object identifier the daemon assigned; `name` and `used_count` are
/// read-only snapshots fetched at query time.
#[derive(Debug, PartialEq)]
pub struct OpenVPN3Config {
    pub path: String,
    pub name: String,
    pub used_count: u32,
}

/// A request to import a configuration file under a chosen name.
#[derive(Debug, PartialEq)]
pub struct ImportConfigPayload {
    pub config_name: String,
    pub single_use: bool,
    pub persistent: bool,
    /// Local filesystem path of the configuration file to read.
    pub config_file: String,
}

/// The arguments of the daemon's import call, ready to send: the name, the
/// file's full text, and the two flags.
#[derive(Debug, PartialEq)]
pub struct ImportCall {
    pub config_name: String,
    pub config_content: String,
    pub single_use: bool,
    pub persistent: bool,
}

/// Whether every per-item read succeeded.
pub open spec fn all_fetches_ok<T>(fetched: Seq<Result<T, RpcErrorKind>>) -> bool {
    forall|i: int| 0 <= i < fetched.len() ==> fetched[i] is Ok
}

/// Fold the enumerated identifiers and the per-identifier detail reads into
/// the configuration listing.  The listing keeps the daemon's enumeration
/// order and pairs each identifier with its own details; the first failed
/// read aborts the listing with that read's error.
pub fn collect_configs(paths: &Vec<String>, fetched: &Vec<Result<(String, u32), RpcErrorKind>>) -> (r:
    Result<Vec<OpenVPN3Config>, OrchestratorError>)
    requires
        paths@.len() == fetched@.len(),
    ensures
        (r is Ok) <==> all_fetches_ok(fetched@),
        r matches Ok(configs) ==> {
            &&& configs@.len() == paths@.len()
            &&& forall|i: int|
                0 <= i < paths@.len() ==> configs@[i] == (OpenVPN3Config {
                    path: paths@[i],
                    name: fetched@[i]->Ok_0.0,
                    used_count: fetched@[i]->Ok_0.1,
                })
        },
        r matches Err(e) ==> exists|i: int|
            {
                &&& 0 <= i < fetched@.len()
                &&& fetched@[i] is Err
                &&& e == (OrchestratorError::Rpc { kind: fetched@[i]->Err_0 })
                &&& forall|j: int| 0 <= j < i ==> fetched@[j] is Ok
            },
{
    let mut configs: Vec<OpenVPN3Config> = Vec::new();
    let n = paths.len();
    let mut i: usize = 0;
    while i < n
        invariant
            n == paths@.len(),
            paths@.len() == fetched@.len(),
            i <= n,
            configs@.len() == i,
            forall|j: int| 0 <= j < i ==> fetched@[j] is Ok,
            forall|j: int|
                0 <= j < i ==> configs@[j] == (OpenVPN3Config {
                    path: paths@[j],
                    name: fetched@[j]->Ok_0.0,
                    used_count: fetched@[j]->Ok_0.1,
                }),
        decreases n - i,
    {
        match &fetched[i] {
            Ok(detail) => {
                configs.push(OpenVPN3Config {
                    path: paths[i].clone(),
                    name: detail.0.clone(),
                    used_count: detail.1,
                });
            },
            Err(kind) => {
                return Err(OrchestratorError::Rpc { kind: *kind });
            },
        }
        i = i + 1;
    }
    Ok(configs)
}

/// Assemble the daemon's import call from the request and the outcome of
/// reading the configuration file.  An unreadable file (`None`) fails the
/// import before anything is sent; otherwise the call carries the request's
/// name and flags and the file's text, unchanged.
pub fn build_import_call(payload: ImportConfigPayload, file_content: Option<String>) -> (r: Result<
    ImportCall,
    OrchestratorError,
>)
    ensures
        file_content matches Some(content) ==> r == Ok::<ImportCall, OrchestratorError>(
            ImportCall {
                config_name: payload.config_name,
                config_content: content,
                single_use: payload.single_use,
                persistent: payload.persistent,
            },
        ),
        file_content is None ==> r == Err::<ImportCall, OrchestratorError>(
            OrchestratorError::FileRead,
        ),
{
    match file_content {
        Some(content) => Ok(
            ImportCall {
                config_name: payload.config_name,
                config_content: content,
                single_use: payload.single_use,
                persistent: payload.persistent,
            },
        ),
        None => Err(OrchestratorError::FileRead),
    }
}

} // verus!
