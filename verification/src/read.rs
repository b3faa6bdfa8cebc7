//! Walking the central directory into a name-to-offset catalog, resolving
//! each member's local header and compressed payload, and decompressing it.

use vstd::prelude::*;

use crate::bytes::{le16, le32, read_u16_le, read_u32_le};
use crate::constants::{
    CENTRAL_DIRECTOR_BEGIN_SIGNATURE, CENTRAL_DIRECTOR_END_SIGNATURE, LOCAL_FILE_HEADER_SIGNATURE,
};
use crate::cp437::decode_seq;
use crate::directory_central::{
    entry_end, entry_local_offset, entry_name_bytes, entry_parses, CentralDirectory,
};
use crate::directory_end::{
    has_trailer, is_trailer_pos, lemma_trailer_pos_is, trailer_parses, trailer_pos,
    CentralDirectorEnd,
};
use crate::error::ArchiveError;

verus! {

/// Outcome of walking the central directory region from a given position:
/// the members listed (in directory order), or the way the walk failed.
pub enum DirectoryWalk {
    /// The trailer signature was reached; one (name, local header offset)
    /// pair per entry walked, in order.
    Complete(Seq<(Seq<char>, int)>),
    /// A position held neither an entry nor the trailer signature.
    BadEntry,
    /// The region ran past the end of the source.
    Cut,
}

/// Walks central directory entries from position `p` until the trailer
/// signature is met.
pub open spec fn walk(s: Seq<u8>, p: int) -> DirectoryWalk
    decreases s.len() - p,
{
    if p < 0 || p + 4 > s.len() {
        DirectoryWalk::Cut
    } else if le32(s, p) == CENTRAL_DIRECTOR_END_SIGNATURE {
        DirectoryWalk::Complete(Seq::empty())
    } else if le32(s, p) != CENTRAL_DIRECTOR_BEGIN_SIGNATURE {
        DirectoryWalk::BadEntry
    } else if !entry_parses(s, p) {
        DirectoryWalk::Cut
    } else {
        match walk(s, entry_end(s, p)) {
            DirectoryWalk::Complete(rest) => DirectoryWalk::Complete(
                seq![(decode_seq(entry_name_bytes(s, p)), entry_local_offset(s, p))] + rest,
            ),
            other => other,
        }
    }
}

/// The start of the central directory, as declared by the trailer.
pub open spec fn directory_start(s: Seq<u8>) -> int {
    le32(s, trailer_pos(s) + 16)
}

/// The walk of the whole central directory region of `s`.
pub open spec fn archive_walk(s: Seq<u8>) -> DirectoryWalk {
    walk(s, directory_start(s))
}

/// The members listed by the central directory of `s`, in order.
pub open spec fn archive_entries(s: Seq<u8>) -> Seq<(Seq<char>, int)> {
    archive_walk(s)->Complete_0
}

/// Whether `s` has a locatable trailer and a fully parseable directory.
pub open spec fn archive_ok(s: Seq<u8>) -> bool {
    &&& has_trailer(s)
    &&& trailer_parses(s, trailer_pos(s))
    &&& archive_walk(s) is Complete
}

/// Which structural error the catalog build of `s` owes, if any: the
/// conditions are mutually exclusive and cover every non-`archive_ok`
/// source.
pub open spec fn catalog_fails_with(s: Seq<u8>, e: ArchiveError) -> bool {
    match e {
        ArchiveError::TooSmall => s.len() < 22,
        ArchiveError::TrailerNotFound => s.len() >= 22 && !has_trailer(s),
        ArchiveError::Truncated => has_trailer(s) && (!trailer_parses(s, trailer_pos(s)) || (
        trailer_parses(s, trailer_pos(s)) && archive_walk(s) is Cut)),
        ArchiveError::BadSignature => has_trailer(s) && trailer_parses(s, trailer_pos(s))
            && archive_walk(s) is BadEntry,
        ArchiveError::DecompressionFailed => false,
    }
}

/// `es` with every pair named `k` taken out, order otherwise kept.
pub open spec fn remove_name(es: Seq<(Seq<char>, int)>, k: Seq<char>) -> Seq<(Seq<char>, int)>
    decreases es.len(),
{
    if es.len() == 0 {
        es
    } else if es.last().0 == k {
        remove_name(es.drop_last(), k)
    } else {
        remove_name(es.drop_last(), k).push(es.last())
    }
}

/// `es` reduced to unique names, a later pair overwriting an earlier one
/// with the same name (last write wins): the catalog's contents.
pub open spec fn dedup_names(es: Seq<(Seq<char>, int)>) -> Seq<(Seq<char>, int)>
    decreases es.len(),
{
    if es.len() == 0 {
        es
    } else {
        remove_name(dedup_names(es.drop_last()), es.last().0).push(es.last())
    }
}

/// Whether no two pairs of `es` share a name.
pub open spec fn names_unique(es: Seq<(Seq<char>, int)>) -> bool {
    forall|i: int, j: int| 0 <= i < j < es.len() ==> es[i].0 != es[j].0
}

/// Removing a name leaves a sequence free of it, no longer, and still
/// unique if it was.
pub proof fn lemma_remove_name_free(es: Seq<(Seq<char>, int)>, k: Seq<char>)
    ensures
        forall|i: int|
            0 <= i < remove_name(es, k).len() ==> #[trigger] remove_name(es, k)[i].0 != k,
        remove_name(es, k).len() <= es.len(),
        names_unique(es) ==> names_unique(remove_name(es, k)),
        forall|i: int|
            0 <= i < remove_name(es, k).len() ==> exists|j: int|
                0 <= j < es.len() && #[trigger] remove_name(es, k)[i] == es[j],
    decreases es.len(),
{
    if es.len() > 0 {
        lemma_remove_name_free(es.drop_last(), k);
        assert(forall|i: int|
            0 <= i < es.drop_last().len() ==> #[trigger] es.drop_last()[i] == es[i]);
        if es.last().0 != k {
            let r = remove_name(es.drop_last(), k).push(es.last());
            assert(forall|i: int|
                0 <= i < r.len() - 1 ==> #[trigger] r[i] == remove_name(es.drop_last(), k)[i]);
            assert(r.last() == es.last());
            if names_unique(es) {
                assert(names_unique(es.drop_last()));
                assert forall|i: int, j: int| 0 <= i < j < r.len() implies r[i].0 != r[j].0 by {
                    if j < r.len() - 1 {
                        assert(remove_name(es.drop_last(), k)[i].0 != remove_name(
                            es.drop_last(),
                            k,
                        )[j].0);
                    } else {
                        let w = choose|w: int|
                            0 <= w < es.drop_last().len() && remove_name(es.drop_last(), k)[i]
                                == es.drop_last()[w];
                        assert(es[w].0 != es.last().0);
                    }
                }
            }
        } else {
            if names_unique(es) {
                assert(names_unique(es.drop_last()));
            }
        }
    }
}

/// On a sequence that holds no pair named `k`, removing `k` changes
/// nothing.
pub proof fn lemma_remove_name_absent(es: Seq<(Seq<char>, int)>, k: Seq<char>)
    requires
        forall|i: int| 0 <= i < es.len() ==> #[trigger] es[i].0 != k,
    ensures
        remove_name(es, k) == es,
    decreases es.len(),
{
    if es.len() > 0 {
        assert(forall|i: int|
            0 <= i < es.drop_last().len() ==> #[trigger] es.drop_last()[i] == es[i]);
        lemma_remove_name_absent(es.drop_last(), k);
        assert(remove_name(es, k) =~= es);
    } else {
        assert(remove_name(es, k) =~= es);
    }
}

/// On a sequence with unique names where `k` is the name at index `j`,
/// removing `k` is removing the pair at `j`.
pub proof fn lemma_remove_name_at(es: Seq<(Seq<char>, int)>, k: Seq<char>, j: int)
    requires
        names_unique(es),
        0 <= j < es.len(),
        es[j].0 == k,
    ensures
        remove_name(es, k) == es.remove(j),
    decreases es.len(),
{
    assert(forall|i: int|
        0 <= i < es.drop_last().len() ==> #[trigger] es.drop_last()[i] == es[i]);
    if j == es.len() - 1 {
        assert forall|i: int| 0 <= i < es.drop_last().len() implies #[trigger] es.drop_last()[i].0
            != k by {
            assert(es[i].0 != es[j].0);
        }
        lemma_remove_name_absent(es.drop_last(), k);
        assert(es.remove(j) =~= es.drop_last());
    } else {
        assert(es.last().0 != k) by {
            assert(es[j].0 != es[es.len() - 1].0);
        }
        assert(names_unique(es.drop_last()));
        lemma_remove_name_at(es.drop_last(), k, j);
        assert(es.remove(j) =~= es.drop_last().remove(j).push(es.last()));
        assert(remove_name(es, k) == es.remove(j));
    }
}

/// The name-to-offset mapping that a list of members denotes, a later
/// pair overwriting an earlier one with the same name.
pub open spec fn catalog_map(es: Seq<(Seq<char>, int)>) -> Map<Seq<char>, int>
    decreases es.len(),
{
    if es.len() == 0 {
        Map::empty()
    } else {
        catalog_map(es.drop_last()).insert(es.last().0, es.last().1)
    }
}

/// Taking the pairs of one name out of the list takes exactly that name
/// out of the mapping.
pub proof fn lemma_catalog_map_remove_name(es: Seq<(Seq<char>, int)>, k: Seq<char>)
    ensures
        catalog_map(remove_name(es, k)) == catalog_map(es).remove(k),
    decreases es.len(),
{
    if es.len() == 0 {
        assert(catalog_map(remove_name(es, k)) =~= catalog_map(es).remove(k));
    } else {
        lemma_catalog_map_remove_name(es.drop_last(), k);
        if es.last().0 == k {
            assert(catalog_map(es).remove(k) =~= catalog_map(es.drop_last()).remove(k));
        } else {
            assert((remove_name(es.drop_last(), k).push(es.last())).drop_last() =~= remove_name(
                es.drop_last(),
                k,
            ));
            assert(catalog_map(es).remove(k) =~= catalog_map(es.drop_last()).remove(k).insert(
                es.last().0,
                es.last().1,
            ));
        }
    }
}

/// Law: the catalog is the last-write-wins name-to-offset mapping of the
/// directory's members: reducing the member list to unique names leaves
/// the mapping it denotes unchanged.
pub proof fn lemma_catalog_last_write_wins(es: Seq<(Seq<char>, int)>)
    ensures
        catalog_map(dedup_names(es)) == catalog_map(es),
    decreases es.len(),
{
    if es.len() > 0 {
        lemma_catalog_last_write_wins(es.drop_last());
        lemma_catalog_map_remove_name(dedup_names(es.drop_last()), es.last().0);
        assert((remove_name(dedup_names(es.drop_last()), es.last().0).push(
            es.last(),
        )).drop_last() =~= remove_name(dedup_names(es.drop_last()), es.last().0));
        assert(catalog_map(es.drop_last()).remove(es.last().0).insert(es.last().0, es.last().1)
            =~= catalog_map(es.drop_last()).insert(es.last().0, es.last().1));
    }
}

/// The catalog's contents have unique names.
pub proof fn lemma_dedup_names_unique(es: Seq<(Seq<char>, int)>)
    ensures
        names_unique(dedup_names(es)),
    decreases es.len(),
{
    if es.len() > 0 {
        lemma_dedup_names_unique(es.drop_last());
        let base = remove_name(dedup_names(es.drop_last()), es.last().0);
        lemma_remove_name_free(dedup_names(es.drop_last()), es.last().0);
        let r = base.push(es.last());
        assert forall|i: int, j: int| 0 <= i < j < r.len() implies r[i].0 != r[j].0 by {
            if j < r.len() - 1 {
                assert(base[i].0 != base[j].0);
            } else {
                assert(base[i].0 != es.last().0);
            }
        }
    }
}

/// The mathematical contents of an executable catalog: each name as text,
/// each offset as an integer.
pub open spec fn catalog_view(v: Seq<(String, u32)>) -> Seq<(Seq<char>, int)> {
    v.map_values(|e: (String, u32)| (e.0@, e.1 as int))
}

/// Finds the index of the member named `name`, if the catalog holds one.
fn find_name(v: &Vec<(String, u32)>, name: &String) -> (r: Option<usize>)
    ensures
        match r {
            Some(j) => j < v@.len() && v@[j as int].0@ == name@,
            None => forall|i: int| 0 <= i < v@.len() ==> #[trigger] v@[i].0@ != name@,
        },
{
    let mut j: usize = 0;
    while j < v.len()
        invariant
            j <= v@.len(),
            forall|i: int| 0 <= i < j ==> #[trigger] v@[i].0@ != name@,
        decreases v@.len() - j,
    {
        if v[j].0 == *name {
            return Some(j);
        }
        j = j + 1;
    }
    None
}

/// Records one member in the catalog: a later member with the same name
/// overwrites the earlier one (last write wins).
fn catalog_insert(v: &mut Vec<(String, u32)>, name: String, offset: u32)
    requires
        names_unique(catalog_view(old(v)@)),
    ensures
        names_unique(catalog_view(final(v)@)),
        catalog_view(final(v)@) == remove_name(catalog_view(old(v)@), name@).push(
            (name@, offset as int),
        ),
{
    let ghost cur = catalog_view(old(v)@);
    match find_name(v, &name) {
        Some(j) => {
            proof {
                lemma_remove_name_at(cur, name@, j as int);
            }
            v.remove(j);
            proof {
                assert(catalog_view(v@) =~= cur.remove(j as int));
            }
        },
        None => {
            proof {
                assert forall|i: int| 0 <= i < cur.len() implies #[trigger] cur[i].0 != name@ by {
                    assert(v@[i].0@ != name@);
                }
                lemma_remove_name_absent(cur, name@);
            }
        },
    }
    proof {
        lemma_remove_name_free(cur, name@);
    }
    v.push((name, offset));
    proof {
        assert(catalog_view(v@) =~= remove_name(cur, name@).push((name@, offset as int)));
        let r = catalog_view(v@);
        assert forall|a: int, b: int| 0 <= a < b < r.len() implies r[a].0 != r[b].0 by {
            if b < r.len() - 1 {
                assert(remove_name(cur, name@)[a].0 != remove_name(cur, name@)[b].0);
            } else {
                assert(remove_name(cur, name@)[a].0 != name@);
            }
        }
    }
}

/// Whether finishing a walk at `pos`, with `done` already walked, settles
/// the walk that started at `start` in the stated way.
pub open spec fn walk_continues(
    s: Seq<u8>,
    pos: int,
    done: Seq<(Seq<char>, int)>,
    start: int,
) -> bool {
    match walk(s, pos) {
        DirectoryWalk::Complete(rest) => walk(s, start) == DirectoryWalk::Complete(done + rest),
        o => walk(s, start) == o,
    }
}

/// Builds the catalog: locates the trailer, then walks the central
/// directory it points to, recording one (name, local header offset) pair
/// per member, a later member overwriting an earlier one of the same name.
pub fn get_local_headers(source: &[u8]) -> (r: Result<Vec<(String, u32)>, ArchiveError>)
    ensures
        match r {
            Ok(v) => {
                &&& archive_ok(source@)
                &&& names_unique(catalog_view(v@))
                &&& catalog_view(v@) == dedup_names(archive_entries(source@))
            },
            Err(e) => catalog_fails_with(source@, e),
        },
{
    let ghost s = source@;
    let trailer = match CentralDirectorEnd::find_and_parse(source) {
        Ok((t, p)) => {
            proof {
                lemma_trailer_pos_is(s, p as int);
            }
            t
        },
        Err(e) => {
            proof {
                if e == ArchiveError::Truncated {
                    let p = choose|p: int| is_trailer_pos(s, p) && !trailer_parses(s, p);
                    lemma_trailer_pos_is(s, p);
                }
            }
            return Err(e);
        },
    };
    let dir_offset = trailer.central_directory_offset;
    let mut pos: usize = dir_offset as usize;
    let ghost dstart = directory_start(s);
    let ghost mut done: Seq<(Seq<char>, int)> = Seq::empty();
    let mut v: Vec<(String, u32)> = Vec::new();
    proof {
        assert(pos as int == dstart);
        if walk(s, dstart) is Complete {
            assert(done + walk(s, dstart)->Complete_0 =~= walk(s, dstart)->Complete_0);
        }
    }
    loop
        invariant
            source@ == s,
            has_trailer(s),
            trailer_parses(s, trailer_pos(s)),
            dstart == directory_start(s),
            walk_continues(s, pos as int, done, dstart),
            names_unique(catalog_view(v@)),
            catalog_view(v@) == dedup_names(done),
        decreases s.len() - pos as int,
    {
        if source.len() < 4 || pos > source.len() - 4 {
            return Err(ArchiveError::Truncated);
        }
        if read_u32_le(source, pos) == CENTRAL_DIRECTOR_END_SIGNATURE {
            proof {
                assert(done + Seq::<(Seq<char>, int)>::empty() =~= done);
            }
            return Ok(v);
        }
        match CentralDirectory::parse(source, pos) {
            Ok((e, next)) => {
                let ghost entry = (e.file_name@, e.relative_offset as int);
                catalog_insert(&mut v, e.file_name, e.relative_offset);
                proof {
                    let w = walk(s, next as int);
                    if w is Complete {
                        let rest = w->Complete_0;
                        assert(seq![entry] + rest =~= rest.insert(0, entry));
                        assert(done + (seq![entry] + rest) =~= done.push(entry) + rest);
                    }
                    assert((done.push(entry)).drop_last() =~= done);
                    done = done.push(entry);
                }
                pos = next;
            },
            Err(e) => {
                return Err(e);
            },
        }
    }
}

/// Whether the local file header signature stands at position `i`.
pub open spec fn local_sig_at(s: Seq<u8>, i: int) -> bool {
    0 <= i && i + 4 <= s.len() && le32(s, i) == LOCAL_FILE_HEADER_SIGNATURE
}

/// The compressed payload size declared by the local header at `i`.
pub open spec fn local_comp_size(s: Seq<u8>, i: int) -> int {
    le32(s, i + 18)
}

/// Length of the name field declared by the local header at `i`.
pub open spec fn local_name_len(s: Seq<u8>, i: int) -> int {
    le16(s, i + 26)
}

/// Length of the extra field declared by the local header at `i`.
pub open spec fn local_extra_len(s: Seq<u8>, i: int) -> int {
    le16(s, i + 28)
}

/// Position of the compressed payload: past the fixed portion, the name
/// and the extra field.
pub open spec fn local_payload_start(s: Seq<u8>, i: int) -> int {
    i + 30 + local_name_len(s, i) + local_extra_len(s, i)
}

/// Whether a whole local header and its declared payload fit at `i`.
pub open spec fn local_parses(s: Seq<u8>, i: int) -> bool {
    &&& local_sig_at(s, i)
    &&& i + 30 <= s.len()
    &&& local_payload_start(s, i) + local_comp_size(s, i) <= s.len()
}

/// The compressed payload bytes of the member whose local header is at `i`.
pub open spec fn local_payload(s: Seq<u8>, i: int) -> Seq<u8> {
    s.subrange(local_payload_start(s, i), local_payload_start(s, i) + local_comp_size(s, i))
}

/// What the one supported decompression algorithm yields on a compressed
/// stream: the decompressed bytes, or nothing when the stream is malformed.
/// The result depends on the input bytes alone.
pub uninterp spec fn inflate_of(data: Seq<u8>) -> Option<Seq<u8>>;

/// Relies on `flate2::read::DeflateDecoder` (driven by `std::io::Read::
/// read_to_end`): raw Deflate decompression of an in-memory buffer, whose
/// outcome is a function of the input bytes alone; it errors on malformed
/// streams.
#[verifier::external_body]
fn inflate(data: &[u8]) -> (r: Option<Vec<u8>>)
    ensures
        match r {
            Some(out) => inflate_of(data@) == Some(out@),
            None => inflate_of(data@) is None,
        },
{
    let mut decoder = flate2::read::DeflateDecoder::new(data);
    let mut out: Vec<u8> = Vec::new();
    match std::io::Read::read_to_end(&mut decoder, &mut out) {
        Ok(_) => Some(out),
        Err(_) => None,
    }
}

/// The outcome extraction owes for the member whose local header is at
/// `i`: its decompressed bytes, or the error telling why there are none.
pub open spec fn member_spec(s: Seq<u8>, i: int) -> Result<Seq<u8>, ArchiveError> {
    if i + 4 > s.len() {
        Err(ArchiveError::Truncated)
    } else if le32(s, i) != LOCAL_FILE_HEADER_SIGNATURE {
        Err(ArchiveError::BadSignature)
    } else if !local_parses(s, i) {
        Err(ArchiveError::Truncated)
    } else {
        match inflate_of(local_payload(s, i)) {
            Some(b) => Ok(b),
            None => Err(ArchiveError::DecompressionFailed),
        }
    }
}

/// Extracts the member whose local header starts at `offset`: validates
/// the signature, skips the name and extra fields, reads exactly the
/// declared number of compressed bytes and decompresses them.
pub fn extract_member(source: &[u8], offset: usize) -> (r: Result<Vec<u8>, ArchiveError>)
    ensures
        match r {
            Ok(d) => member_spec(source@, offset as int) == Ok::<Seq<u8>, ArchiveError>(d@),
            Err(e) => member_spec(source@, offset as int) == Err::<Seq<u8>, ArchiveError>(e),
        },
{
    if source.len() < 4 || offset > source.len() - 4 {
        return Err(ArchiveError::Truncated);
    }
    if read_u32_le(source, offset) != LOCAL_FILE_HEADER_SIGNATURE {
        return Err(ArchiveError::BadSignature);
    }
    if source.len() - offset < 30 {
        return Err(ArchiveError::Truncated);
    }
    let compressed_size = read_u32_le(source, offset + 18);
    let name_len = read_u16_le(source, offset + 26) as usize;
    let extra_len = read_u16_le(source, offset + 28) as usize;
    if source.len() - (offset + 30) < name_len + extra_len {
        return Err(ArchiveError::Truncated);
    }
    let payload_start = offset + 30 + name_len + extra_len;
    if source.len() - payload_start < compressed_size as usize {
        return Err(ArchiveError::Truncated);
    }
    let payload = &source[payload_start..payload_start + compressed_size as usize];
    match inflate(payload) {
        Some(out) => Ok(out),
        None => Err(ArchiveError::DecompressionFailed),
    }
}

/// The outcome extraction owes for the `i`-th catalog member of `s`.
pub open spec fn member_outcome(s: Seq<u8>, i: int) -> Result<Seq<u8>, ArchiveError> {
    member_spec(s, dedup_names(archive_entries(s))[i].1)
}

/// The mathematical contents of a per-member result list: each name as
/// text, each outcome over byte sequences.
pub open spec fn results_view(items: Seq<(String, Result<Vec<u8>, ArchiveError>)>) -> Seq<
    (Seq<char>, Result<Seq<u8>, ArchiveError>),
> {
    items.map_values(
        |e: (String, Result<Vec<u8>, ArchiveError>)|
            (
                e.0@,
                match e.1 {
                    Ok(d) => Ok::<Seq<u8>, ArchiveError>(d@),
                    Err(x) => Err::<Seq<u8>, ArchiveError>(x),
                },
            ),
    )
}

/// What a full extraction of `s` owes: one result per catalog member, in
/// catalog order, each the outcome owed for that member's local header.
pub open spec fn unzip_post(s: Seq<u8>, items: Seq<(Seq<char>, Result<Seq<u8>, ArchiveError>)>) -> bool {
    &&& archive_ok(s)
    &&& items.len() == dedup_names(archive_entries(s)).len()
    &&& forall|i: int|
        0 <= i < items.len() ==> #[trigger] items[i] == (
            dedup_names(archive_entries(s))[i].0,
            member_spec(s, dedup_names(archive_entries(s))[i].1),
        )
}

/// Extracts every cataloged member of the archive, collecting a result
/// per member rather than stopping at the first member that fails.
pub fn unzip_osz(source: &[u8]) -> (r: Result<
    Vec<(String, Result<Vec<u8>, ArchiveError>)>,
    ArchiveError,
>)
    ensures
        match r {
            Ok(items) => unzip_post(source@, results_view(items@)),
            Err(e) => catalog_fails_with(source@, e),
        },
{
    let ghost s = source@;
    let headers = get_local_headers(source)?;
    let ghost cat = dedup_names(archive_entries(s));
    let mut items: Vec<(String, Result<Vec<u8>, ArchiveError>)> = Vec::new();
    let mut i: usize = 0;
    while i < headers.len()
        invariant
            source@ == s,
            archive_ok(s),
            catalog_view(headers@) == cat,
            cat == dedup_names(archive_entries(s)),
            i <= headers@.len(),
            items@.len() == i,
            forall|j: int|
                0 <= j < i ==> #[trigger] results_view(items@)[j] == (
                    cat[j].0,
                    member_spec(s, cat[j].1),
                ),
        decreases headers@.len() - i,
    {
        let name = headers[i].0.clone();
        let offset = headers[i].1;
        let data = extract_member(source, offset as usize);
        let ghost prev = items@;
        let ghost nview = name@;
        let ghost dview = (match data {
            Ok(ref d) => Ok::<Seq<u8>, ArchiveError>(d@),
            Err(x) => Err::<Seq<u8>, ArchiveError>(x),
        });
        items.push((name, data));
        proof {
            assert(cat[i as int] == (headers@[i as int].0@, headers@[i as int].1 as int));
            assert(dview == member_spec(s, cat[i as int].1));
            assert forall|j: int| 0 <= j < i as int + 1 implies #[trigger] results_view(items@)[j]
                == (cat[j].0, member_spec(s, cat[j].1)) by {
                if j < i as int {
                    assert(items@[j] == prev[j]);
                    assert(results_view(prev)[j] == (cat[j].0, member_spec(s, cat[j].1)));
                } else {
                    assert(items@[j] == (items@[j].0, items@[j].1));
                    assert(results_view(items@)[j] == (nview, dview));
                }
            }
        }
        i = i + 1;
    }
    Ok(items)
}

/// Law: extraction is a function of the source bytes alone: any two
/// per-member result lists that the extraction contract admits for the
/// same source are equal.
pub proof fn lemma_extraction_deterministic(
    s: Seq<u8>,
    r1: Seq<(Seq<char>, Result<Seq<u8>, ArchiveError>)>,
    r2: Seq<(Seq<char>, Result<Seq<u8>, ArchiveError>)>,
)
    requires
        unzip_post(s, r1),
        unzip_post(s, r2),
    ensures
        r1 == r2,
{
    assert(r1 =~= r2);
}

} // verus!
