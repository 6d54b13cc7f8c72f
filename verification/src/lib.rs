//! Verified core of a cold-storage archive retrieval client.
//!
//! The remote service stores immutable archives in vaults; getting an archive
//! back is asynchronous: a caller submits a retrieval job at a chosen speed
//! tier, polls until the job is ready, then fetches the produced output.
//! This crate holds the verified logic of that lifecycle: the tier catalog,
//! the request builder, and the state machines that decide what to do next
//! after each remote response. Performing the remote calls themselves is the
//! caller's business; the machines here only hand out decisions.

pub mod error;
pub mod job;
pub mod poll;
pub mod session;
pub mod tier;

pub use error::RetrievalError;
pub use job::{build_request, JobHandle, JobOutput, RetrievalRequest};
pub use poll::{PollOutcome, PollSession, PollStep};
pub use session::{RemoteCallKind, RetrievalSession};
pub use tier::DownLoadTier;
