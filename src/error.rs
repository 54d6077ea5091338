//! The ways in which a container can fail verification.

use vstd::prelude::*;

verus! {

/// Why a container failed verification.
#[derive(Debug, Clone, Copy, PartialEq, Eq, Structural)]
pub enum VerifyError {
    /// Fewer bytes than a whole header were available.
    TruncatedHeader { available: usize },
    /// The header's magic field does not hold the format identifier.
    BadMagic { found: u64 },
    /// The header declares a payload length other than the one present.
    SizeMismatch { declared: u64, actual: u64 },
    /// The payload's digest differs from the one the header records.
    DigestMismatch,
}

} // verus!
