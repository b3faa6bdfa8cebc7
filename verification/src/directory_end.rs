//! The end-of-central-directory trailer: locating it by a bounded backward
//! scan and parsing its fixed fields and trailing comment.

use vstd::prelude::*;

use crate::bytes::{le16, le32, read_u16_le, read_u32_le};
use crate::constants::CENTRAL_DIRECTOR_END_SIGNATURE;
use crate::error::ArchiveError;

verus! {

/// Whether the trailer signature stands at byte position `i` of `s`.
pub open spec fn trailer_sig_at(s: Seq<u8>, i: int) -> bool {
    0 <= i && i + 4 <= s.len() && le32(s, i) == CENTRAL_DIRECTOR_END_SIGNATURE
}

/// The comment length declared by a trailer record starting at `i`.
pub open spec fn trailer_comment_len(s: Seq<u8>, i: int) -> int {
    le16(s, i + 20)
}

/// Whether a whole trailer record (fixed fields and declared comment) fits
/// at position `i` of `s`.
pub open spec fn trailer_parses(s: Seq<u8>, i: int) -> bool {
    &&& trailer_sig_at(s, i)
    &&& i + 22 <= s.len()
    &&& i + 22 + trailer_comment_len(s, i) <= s.len()
}

/// The rightmost position a trailer record could start at.
pub open spec fn scan_hi(s: Seq<u8>) -> int {
    s.len() - 22
}

/// The leftmost position scanned: the trailer's comment is at most 0xFFFF
/// bytes, so no earlier start could reach the end of the source.
pub open spec fn scan_lo(s: Seq<u8>) -> int {
    if s.len() >= 22 + 0xFFFF {
        s.len() - 22 - 0xFFFF
    } else {
        0
    }
}

/// Whether the scan window holds a trailer signature at all.
pub open spec fn has_trailer(s: Seq<u8>) -> bool {
    s.len() >= 22 && exists|p: int| scan_lo(s) <= p <= scan_hi(s) && trailer_sig_at(s, p)
}

/// Whether `p` is the authoritative trailer position: the rightmost
/// signature match in the scan window.
pub open spec fn is_trailer_pos(s: Seq<u8>, p: int) -> bool {
    &&& scan_lo(s) <= p <= scan_hi(s)
    &&& trailer_sig_at(s, p)
    &&& forall|q: int| p < q <= scan_hi(s) ==> !trailer_sig_at(s, q)
}

/// The authoritative trailer position of a source that has one.
pub open spec fn trailer_pos(s: Seq<u8>) -> int {
    choose|p: int| is_trailer_pos(s, p)
}

/// At most one position is the rightmost signature match.
pub proof fn lemma_trailer_pos_unique(s: Seq<u8>, p1: int, p2: int)
    requires
        is_trailer_pos(s, p1),
        is_trailer_pos(s, p2),
    ensures
        p1 == p2,
{
    if p1 < p2 {
        assert(!trailer_sig_at(s, p2));
    }
    if p2 < p1 {
        assert(!trailer_sig_at(s, p1));
    }
}

/// A rightmost signature match is the authoritative trailer position.
pub proof fn lemma_trailer_pos_is(s: Seq<u8>, p: int)
    requires
        is_trailer_pos(s, p),
    ensures
        has_trailer(s),
        trailer_pos(s) == p,
{
    assert(s.len() >= 22);
    assert(has_trailer(s));
    let q = trailer_pos(s);
    assert(is_trailer_pos(s, q)) by {
        assert(exists|w: int| is_trailer_pos(s, w));
    }
    lemma_trailer_pos_unique(s, p, q);
}

/// The end-of-central-directory trailer record.
#[derive(Debug)]
pub struct CentralDirectorEnd {
    pub disk_number: u16,
    pub disk_number_with_central_directory: u16,
    pub number_of_files: u16,
    pub total_number_of_files: u16,
    pub central_directory_size: u32,
    pub central_directory_offset: u32,
    pub comment: Vec<u8>,
}

impl CentralDirectorEnd {
    /// Whether this record holds exactly the fields written at position `i`
    /// of source `s`.
    pub open spec fn is_parse_of(self, s: Seq<u8>, i: int) -> bool {
        &&& self.disk_number as int == le16(s, i + 4)
        &&& self.disk_number_with_central_directory as int == le16(s, i + 6)
        &&& self.number_of_files as int == le16(s, i + 8)
        &&& self.total_number_of_files as int == le16(s, i + 10)
        &&& self.central_directory_size as int == le32(s, i + 12)
        &&& self.central_directory_offset as int == le32(s, i + 16)
        &&& self.comment@ == s.subrange(i + 22, i + 22 + trailer_comment_len(s, i))
    }

    /// Parses the trailer record at position `pos` of `source`: the
    /// signature, six fixed little-endian fields, and the comment of the
    /// declared length.
    pub fn parse(source: &[u8], pos: usize) -> (r: Result<CentralDirectorEnd, ArchiveError>)
        ensures
            match r {
                Ok(t) => trailer_parses(source@, pos as int) && t.is_parse_of(source@, pos as int),
                Err(ArchiveError::BadSignature) => pos + 4 <= source@.len() && !trailer_sig_at(
                    source@,
                    pos as int,
                ),
                Err(ArchiveError::Truncated) => pos + 4 > source@.len() || (trailer_sig_at(
                    source@,
                    pos as int,
                ) && !trailer_parses(source@, pos as int)),
                _ => false,
            },
    {
        if source.len() < 4 || pos > source.len() - 4 {
            return Err(ArchiveError::Truncated);
        }
        if read_u32_le(source, pos) != CENTRAL_DIRECTOR_END_SIGNATURE {
            return Err(ArchiveError::BadSignature);
        }
        if source.len() - pos < 22 {
            return Err(ArchiveError::Truncated);
        }
        let comment_length = read_u16_le(source, pos + 20);
        if source.len() - (pos + 22) < comment_length as usize {
            return Err(ArchiveError::Truncated);
        }
        let comment_end = pos + 22 + comment_length as usize;
        let comment_slice = &source[pos + 22..comment_end];
        let mut comment: Vec<u8> = Vec::new();
        let mut i: usize = 0;
        while i < comment_slice.len()
            invariant
                i <= comment_slice@.len(),
                comment@ == comment_slice@.subrange(0, i as int),
            decreases comment_slice@.len() - i,
        {
            comment.push(comment_slice[i]);
            proof {
                assert(comment_slice@.subrange(0, i as int + 1) =~= comment_slice@.subrange(
                    0,
                    i as int,
                ).push(comment_slice@[i as int]));
            }
            i = i + 1;
        }
        proof {
            assert(comment_slice@.subrange(0, comment_slice@.len() as int) =~= comment_slice@);
        }
        Ok(
            CentralDirectorEnd {
                disk_number: read_u16_le(source, pos + 4),
                disk_number_with_central_directory: read_u16_le(source, pos + 6),
                number_of_files: read_u16_le(source, pos + 8),
                total_number_of_files: read_u16_le(source, pos + 10),
                central_directory_size: read_u32_le(source, pos + 12),
                central_directory_offset: read_u32_le(source, pos + 16),
                comment,
            },
        )
    }

    /// Scans backward from the last possible trailer start for the trailer
    /// signature and parses the record at the rightmost match: a match
    /// closer to the end always wins over an apparent one inside a comment.
    pub fn find_and_parse(source: &[u8]) -> (r: Result<(CentralDirectorEnd, usize), ArchiveError>)
        ensures
            match r {
                Ok((t, p)) => {
                    &&& is_trailer_pos(source@, p as int)
                    &&& trailer_parses(source@, p as int)
                    &&& t.is_parse_of(source@, p as int)
                },
                Err(ArchiveError::TooSmall) => source@.len() < 22,
                Err(ArchiveError::TrailerNotFound) => source@.len() >= 22 && !has_trailer(source@),
                Err(ArchiveError::Truncated) => exists|p: int|
                    is_trailer_pos(source@, p) && !trailer_parses(source@, p),
                _ => false,
            },
    {
        if source.len() < 22 {
            return Err(ArchiveError::TooSmall);
        }
        let hi: usize = source.len() - 22;
        let lo: usize = if source.len() - 22 >= 0xFFFF {
            source.len() - 22 - 0xFFFF
        } else {
            0
        };
        let mut position: usize = hi;
        loop
            invariant
                lo <= position <= hi,
                hi == scan_hi(source@),
                lo == scan_lo(source@),
                source@.len() >= 22,
                forall|q: int| position < q <= hi ==> !trailer_sig_at(source@, q),
            decreases position,
        {
            if read_u32_le(source, position) == CENTRAL_DIRECTOR_END_SIGNATURE {
                let t = CentralDirectorEnd::parse(source, position)?;
                return Ok((t, position));
            }
            if position == lo {
                assert(!has_trailer(source@));
                return Err(ArchiveError::TrailerNotFound);
            }
            position = position - 1;
        }
    }
}

} // verus!
