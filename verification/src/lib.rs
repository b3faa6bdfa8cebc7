//! Extraction of single-volume, Deflate-only archives in the ZIP family
//! layout: an end-of-central-directory trailer is located by a backward
//! scan, the central directory it points to is walked into a name-to-offset
//! catalog, and each member's local header and compressed payload are
//! resolved and decompressed.
//!
//! All parsing works on an in-memory byte source; reading the archive from
//! disk and writing extracted members out are left to the caller.

use vstd::prelude::*;

pub mod bytes;
pub mod constants;
pub mod cp437;
pub mod directory_central;
pub mod directory_end;
pub mod error;
pub mod read;

verus! {

use crate::error::ArchiveError;
use crate::read::{
    archive_entries, archive_ok, catalog_fails_with, catalog_view, dedup_names, extract_member,
    get_local_headers, member_outcome, member_spec,
};

/// Extracts every cataloged member of the archive, stopping at the first
/// member whose extraction fails (fail-fast mode): one (decoded name,
/// decompressed bytes) pair per member, in catalog order.
#[verifier::rlimit(60)]
pub fn parse_osz(source: &[u8]) -> (r: Result<Vec<(String, Vec<u8>)>, ArchiveError>)
    ensures
        match r {
            Ok(items) => {
                &&& archive_ok(source@)
                &&& items@.len() == dedup_names(archive_entries(source@)).len()
                &&& forall|i: int|
                    0 <= i < items@.len() ==> (#[trigger] items@[i]).0@ == dedup_names(
                        archive_entries(source@),
                    )[i].0 && member_outcome(source@, i) == Ok::<Seq<u8>, ArchiveError>(
                        items@[i].1@,
                    )
            },
            Err(e) => catalog_fails_with(source@, e) || (archive_ok(source@) && exists|i: int|
                0 <= i < dedup_names(archive_entries(source@)).len() && #[trigger] member_outcome(
                    source@,
                    i,
                ) == Err::<Seq<u8>, ArchiveError>(e) && (forall|j: int|
                    0 <= j < i ==> member_outcome(source@, j) is Ok)),
        },
{
    let ghost s = source@;
    let headers = get_local_headers(source)?;
    let ghost cat = dedup_names(archive_entries(s));
    let mut items: Vec<(String, Vec<u8>)> = Vec::new();
    let mut i: usize = 0;
    while i < headers.len()
        invariant
            source@ == s,
            archive_ok(s),
            catalog_view(headers@) == cat,
            cat == dedup_names(archive_entries(s)),
            i <= headers@.len(),
            items@.len() == i,
            forall|j: int|
                0 <= j < i ==> (#[trigger] items@[j]).0@ == cat[j].0 && member_spec(s, cat[j].1)
                    == Ok::<Seq<u8>, ArchiveError>(items@[j].1@),
        decreases headers@.len() - i,
    {
        let name = headers[i].0.clone();
        let offset = headers[i].1;
        proof {
            assert(cat[i as int] == (headers@[i as int].0@, headers@[i as int].1 as int));
        }
        match extract_member(source, offset as usize) {
            Ok(d) => {
                let ghost prev = items@;
                items.push((name, d));
                proof {
                    assert forall|j: int| 0 <= j < i as int + 1 implies (#[trigger] items@[j]).0@
                        == cat[j].0 && member_spec(s, cat[j].1) == Ok::<Seq<u8>, ArchiveError>(
                        items@[j].1@,
                    ) by {
                        if j < i as int {
                            assert(items@[j] == prev[j]);
                        }
                    }
                }
            },
            Err(e) => {
                proof {
                    assert(member_outcome(s, i as int) == Err::<Seq<u8>, ArchiveError>(e));
                    assert forall|j: int| 0 <= j < i as int implies member_outcome(s, j) is Ok by {
                        assert(member_spec(s, cat[j].1) == Ok::<Seq<u8>, ArchiveError>(
                            items@[j].1@,
                        ));
                    }
                }
                return Err(e);
            },
        }
        i = i + 1;
    }
    proof {
        assert forall|i2: int| 0 <= i2 < items@.len() implies member_outcome(s, i2) == Ok::<
            Seq<u8>,
            ArchiveError,
        >(items@[i2].1@) by {
            assert(member_spec(s, cat[i2].1) == Ok::<Seq<u8>, ArchiveError>(items@[i2].1@));
        }
    }
    Ok(items)
}

} // verus!
