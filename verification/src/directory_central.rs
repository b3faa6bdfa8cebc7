//! One central directory entry: a fixed 46-byte leading portion followed
//! by three variable-length fields (name, extra, comment) in that order.

use vstd::prelude::*;

use crate::bytes::{le16, le32, read_u16_le, read_u32_le};
use crate::constants::CENTRAL_DIRECTOR_BEGIN_SIGNATURE;
use crate::cp437::{decode_cp437, decode_seq};
use crate::error::ArchiveError;

verus! {

/// Whether the central directory entry signature stands at position `i`.
pub open spec fn entry_sig_at(s: Seq<u8>, i: int) -> bool {
    0 <= i && i + 4 <= s.len() && le32(s, i) == CENTRAL_DIRECTOR_BEGIN_SIGNATURE
}

/// Length of the name field declared by the entry at `i`.
pub open spec fn entry_name_len(s: Seq<u8>, i: int) -> int {
    le16(s, i + 28)
}

/// Length of the extra field declared by the entry at `i`.
pub open spec fn entry_extra_len(s: Seq<u8>, i: int) -> int {
    le16(s, i + 30)
}

/// Length of the comment field declared by the entry at `i`.
pub open spec fn entry_comment_len(s: Seq<u8>, i: int) -> int {
    le16(s, i + 32)
}

/// The local header offset declared by the entry at `i`.
pub open spec fn entry_local_offset(s: Seq<u8>, i: int) -> int {
    le32(s, i + 42)
}

/// Position immediately after the entry at `i`: past the fixed portion and
/// the name, extra and comment runs.
pub open spec fn entry_end(s: Seq<u8>, i: int) -> int {
    i + 46 + entry_name_len(s, i) + entry_extra_len(s, i) + entry_comment_len(s, i)
}

/// Whether a whole entry (fixed portion and declared runs) fits at `i`.
pub open spec fn entry_parses(s: Seq<u8>, i: int) -> bool {
    &&& entry_sig_at(s, i)
    &&& i + 46 <= s.len()
    &&& entry_end(s, i) <= s.len()
}

/// The raw bytes of the name field of the entry at `i`.
pub open spec fn entry_name_bytes(s: Seq<u8>, i: int) -> Seq<u8> {
    s.subrange(i + 46, i + 46 + entry_name_len(s, i))
}

/// The raw bytes of the extra field of the entry at `i`.
pub open spec fn entry_extra_bytes(s: Seq<u8>, i: int) -> Seq<u8> {
    s.subrange(i + 46 + entry_name_len(s, i), i + 46 + entry_name_len(s, i) + entry_extra_len(s, i))
}

/// The raw bytes of the comment field of the entry at `i`.
pub open spec fn entry_comment_bytes(s: Seq<u8>, i: int) -> Seq<u8> {
    s.subrange(
        i + 46 + entry_name_len(s, i) + entry_extra_len(s, i),
        entry_end(s, i),
    )
}

/// One member's central directory entry: the local header it points at,
/// the decoded name and comment, and the raw extra field.
#[derive(Debug)]
pub struct CentralDirectory {
    pub relative_offset: u32,
    pub file_name: String,
    pub extra_field: Vec<u8>,
    pub file_comment: String,
}

impl CentralDirectory {
    /// Whether this entry holds exactly what is written at position `i` of
    /// source `s`, names decoded through the legacy code page.
    pub open spec fn is_parse_of(self, s: Seq<u8>, i: int) -> bool {
        &&& self.relative_offset as int == entry_local_offset(s, i)
        &&& self.file_name@ == decode_seq(entry_name_bytes(s, i))
        &&& self.extra_field@ == entry_extra_bytes(s, i)
        &&& self.file_comment@ == decode_seq(entry_comment_bytes(s, i))
    }

    /// Parses exactly one central directory entry at `pos`, returning the
    /// entry and the position immediately after its three variable-length
    /// fields.
    pub fn parse(source: &[u8], pos: usize) -> (r: Result<(CentralDirectory, usize), ArchiveError>)
        ensures
            match r {
                Ok((e, next)) => {
                    &&& entry_parses(source@, pos as int)
                    &&& next as int == entry_end(source@, pos as int)
                    &&& e.is_parse_of(source@, pos as int)
                },
                Err(ArchiveError::BadSignature) => pos + 4 <= source@.len() && !entry_sig_at(
                    source@,
                    pos as int,
                ),
                Err(ArchiveError::Truncated) => pos + 4 > source@.len() || (entry_sig_at(
                    source@,
                    pos as int,
                ) && !entry_parses(source@, pos as int)),
                _ => false,
            },
    {
        if source.len() < 4 || pos > source.len() - 4 {
            return Err(ArchiveError::Truncated);
        }
        if read_u32_le(source, pos) != CENTRAL_DIRECTOR_BEGIN_SIGNATURE {
            return Err(ArchiveError::BadSignature);
        }
        if source.len() - pos < 46 {
            return Err(ArchiveError::Truncated);
        }
        let name_len = read_u16_le(source, pos + 28) as usize;
        let extra_len = read_u16_le(source, pos + 30) as usize;
        let comment_len = read_u16_le(source, pos + 32) as usize;
        let relative_offset = read_u32_le(source, pos + 42);
        if source.len() - (pos + 46) < name_len + extra_len + comment_len {
            return Err(ArchiveError::Truncated);
        }
        let name_start = pos + 46;
        let extra_start = name_start + name_len;
        let comment_start = extra_start + extra_len;
        let next = comment_start + comment_len;
        let file_name = decode_cp437(&source[name_start..extra_start]);
        let extra_slice = &source[extra_start..comment_start];
        let mut extra_field: Vec<u8> = Vec::new();
        let mut i: usize = 0;
        while i < extra_slice.len()
            invariant
                i <= extra_slice@.len(),
                extra_field@ == extra_slice@.subrange(0, i as int),
            decreases extra_slice@.len() - i,
        {
            extra_field.push(extra_slice[i]);
            proof {
                assert(extra_slice@.subrange(0, i as int + 1) =~= extra_slice@.subrange(
                    0,
                    i as int,
                ).push(extra_slice@[i as int]));
            }
            i = i + 1;
        }
        proof {
            assert(extra_slice@.subrange(0, extra_slice@.len() as int) =~= extra_slice@);
        }
        let file_comment = decode_cp437(&source[comment_start..next]);
        Ok(
            (
                CentralDirectory {
                    relative_offset,
                    file_name,
                    extra_field,
                    file_comment,
                },
                next,
            ),
        )
    }
}

} // verus!
