//! Client-side orchestration of VPN tunnel sessions and configuration objects
//! exposed by a system daemon over a message bus.
//!
//! The crate holds the decision logic of the orchestrator: the retry policy
//! applied to unreliable remote calls, the multi-step handshake that brings a
//! new tunnel session into a ready state, the classification of asynchronous
//! status signals, the bounded fan-out of log events to observers, and the
//! assembly and aggregation rules for configuration and session listings.
//! The bus itself is driven by an unverified binary that performs the remote
//! calls and hands their plain outcomes to these functions.

pub mod errors;
pub mod fanout;
pub mod registry;
pub mod retry;
pub mod sessions;
pub mod signals;
pub mod tunnel;
