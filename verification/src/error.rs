//! Error kinds reported by the oracle. Every failed operation aborts with one
//! of these and leaves the oracle completely unchanged.

use vstd::prelude::*;

verus! {

/// The reason an oracle operation was rejected.
#[derive(Clone, Copy, Debug, PartialEq, Eq, Structural)]
pub enum ErrorCode {
    /// Caller is not the permitted authority (or, for a reveal, not the
    /// assessor recorded on the targeted assessment).
    Unauthorized,
    /// Commit attempted by an unregistered or deactivated assessor.
    AssessorInactive,
    /// Reveal attempted on an assessment already revealed.
    AlreadyRevealed,
    /// Revealed score lies outside the range 0 to 100.
    InvalidScore,
    /// Recomputed digest does not match the stored commitment.
    InvalidCommitment,
    /// A monotonically increasing counter would exceed its representable range.
    Overflow,
}

} // verus!
