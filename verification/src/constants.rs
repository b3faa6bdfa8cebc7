//! Magic signatures and fixed record sizes of the archive format.

use vstd::prelude::*;

verus! {

/// Signature preceding a local file header.
pub const LOCAL_FILE_HEADER_SIGNATURE: u32 = 0x04034b50;

/// Signature preceding a central directory entry.
pub const CENTRAL_DIRECTOR_BEGIN_SIGNATURE: u32 = 0x02014b50;

/// Signature preceding the end-of-central-directory trailer.
pub const CENTRAL_DIRECTOR_END_SIGNATURE: u32 = 0x06054b50;

} // verus!
