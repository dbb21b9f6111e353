//! Outcome of one proof-of-work search attempt.

use vstd::prelude::*;

verus! {

/// Tagged outcome of one search attempt for one identity.
#[derive(Debug, Clone, Copy, PartialEq, Eq, Structural)]
pub enum MiningResult {
    /// A valid nonce was found and durably queued.
    FoundAndQueued,
    /// This identity already solved this challenge.
    AlreadySolved,
    /// The search was exhausted, failed or was cancelled.
    MiningFailed,
}

} // verus!
