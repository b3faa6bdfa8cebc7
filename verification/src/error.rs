//! Error kinds for structural archive failures.

use vstd::prelude::*;

verus! {

/// Why parsing or extracting part of an archive failed.
#[derive(Debug, Clone, Copy, PartialEq, Eq, Structural)]
pub enum ArchiveError {
    /// The source is shorter than the smallest possible trailer record.
    TooSmall,
    /// No trailer signature was found in the bounded backward-scan window.
    TrailerNotFound,
    /// A fixed-position magic value did not match the expected signature.
    BadSignature,
    /// A declared length exceeds the bytes remaining in the source.
    Truncated,
    /// A member's payload is not a valid stream for the supported algorithm.
    DecompressionFailed,
}

} // verus!
