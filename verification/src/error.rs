//! The error taxonomy a retrieval surfaces to its caller.

use vstd::prelude::*;

verus! {

/// Why a retrieval operation failed. The set is deliberately closed and
/// small: distinguishing the underlying remote causes is the transport
/// layer's business, not the caller's.
#[derive(Clone, Copy, PartialEq, Eq, Structural, Debug)]
pub enum RetrievalError {
    /// The supplied tier text parsed to no tier; no remote call was made.
    InvalidTier,
    /// The remote service rejected the job submission or was unreachable.
    InitiationFailed,
    /// The tier's poll budget ran out before the job became ready. Local
    /// only: the remote job keeps running to its natural expiry.
    Timeout,
    /// The remote service definitively rejected the output fetch, for
    /// instance because the job is unknown or access was denied.
    CompletionFailed,
}

} // verus!
