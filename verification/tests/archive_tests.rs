use oszip::directory_central::CentralDirectory;
use oszip::directory_end::CentralDirectorEnd;
use oszip::error::ArchiveError;
use oszip::parse_osz;
use oszip::read::{extract_member, get_local_headers, unzip_osz};

/// Raw Deflate stream (one stored block) whose decompressed bytes are "hi".
const HI_DEFLATE: [u8; 7] = [0x01, 0x02, 0x00, 0xFD, 0xFF, b'h', b'i'];

fn local_header(name: &[u8], payload: &[u8]) -> Vec<u8> {
    let mut out = Vec::new();
    out.extend_from_slice(&0x04034b50u32.to_le_bytes());
    out.extend_from_slice(&20u16.to_le_bytes()); // version needed
    out.extend_from_slice(&0u16.to_le_bytes()); // flags
    out.extend_from_slice(&8u16.to_le_bytes()); // method: Deflate
    out.extend_from_slice(&0u16.to_le_bytes()); // time
    out.extend_from_slice(&0u16.to_le_bytes()); // date
    out.extend_from_slice(&0u32.to_le_bytes()); // crc-32
    out.extend_from_slice(&(payload.len() as u32).to_le_bytes());
    out.extend_from_slice(&0u32.to_le_bytes()); // uncompressed size
    out.extend_from_slice(&(name.len() as u16).to_le_bytes());
    out.extend_from_slice(&0u16.to_le_bytes()); // extra length
    out.extend_from_slice(name);
    out.extend_from_slice(payload);
    out
}

fn central_entry(name: &[u8], payload_len: usize, offset: u32) -> Vec<u8> {
    let mut out = Vec::new();
    out.extend_from_slice(&0x02014b50u32.to_le_bytes());
    out.extend_from_slice(&20u16.to_le_bytes()); // version made by
    out.extend_from_slice(&20u16.to_le_bytes()); // version needed
    out.extend_from_slice(&0u16.to_le_bytes()); // flags
    out.extend_from_slice(&8u16.to_le_bytes()); // method
    out.extend_from_slice(&0u16.to_le_bytes()); // time
    out.extend_from_slice(&0u16.to_le_bytes()); // date
    out.extend_from_slice(&0u32.to_le_bytes()); // crc-32
    out.extend_from_slice(&(payload_len as u32).to_le_bytes());
    out.extend_from_slice(&0u32.to_le_bytes()); // uncompressed size
    out.extend_from_slice(&(name.len() as u16).to_le_bytes());
    out.extend_from_slice(&0u16.to_le_bytes()); // extra length
    out.extend_from_slice(&0u16.to_le_bytes()); // comment length
    out.extend_from_slice(&0u16.to_le_bytes()); // disk number start
    out.extend_from_slice(&0u16.to_le_bytes()); // internal attributes
    out.extend_from_slice(&0u32.to_le_bytes()); // external attributes
    out.extend_from_slice(&offset.to_le_bytes());
    out.extend_from_slice(name);
    out
}

fn trailer(entries: u16, cd_size: u32, cd_offset: u32, comment: &[u8]) -> Vec<u8> {
    let mut out = Vec::new();
    out.extend_from_slice(&0x06054b50u32.to_le_bytes());
    out.extend_from_slice(&0u16.to_le_bytes()); // disk number
    out.extend_from_slice(&0u16.to_le_bytes()); // disk with directory
    out.extend_from_slice(&entries.to_le_bytes());
    out.extend_from_slice(&entries.to_le_bytes());
    out.extend_from_slice(&cd_size.to_le_bytes());
    out.extend_from_slice(&cd_offset.to_le_bytes());
    out.extend_from_slice(&(comment.len() as u16).to_le_bytes());
    out.extend_from_slice(comment);
    out
}

/// Builds a valid single-volume archive from (name, deflate payload) pairs.
fn build_archive(members: &[(&[u8], &[u8])], comment: &[u8]) -> Vec<u8> {
    let mut out = Vec::new();
    let mut offsets = Vec::new();
    for (name, payload) in members {
        offsets.push(out.len() as u32);
        out.extend_from_slice(&local_header(name, payload));
    }
    let cd_offset = out.len() as u32;
    for (i, (name, payload)) in members.iter().enumerate() {
        out.extend_from_slice(&central_entry(name, payload.len(), offsets[i]));
    }
    let cd_size = out.len() as u32 - cd_offset;
    out.extend_from_slice(&trailer(members.len() as u16, cd_size, cd_offset, comment));
    out
}

/// A valid archive with three members yields exactly three catalog
/// entries, each offset pointing at a local header signature.
#[test]
fn catalog_lists_every_member() {
    let archive = build_archive(
        &[
            (b"a.osu", &HI_DEFLATE),
            (b"b.osu", &HI_DEFLATE),
            (b"c.txt", &HI_DEFLATE),
        ],
        b"",
    );
    let headers = get_local_headers(&archive).unwrap();
    assert_eq!(headers.len(), 3);
    let names: Vec<&str> = headers.iter().map(|e| e.0.as_str()).collect();
    assert_eq!(names, vec!["a.osu", "b.osu", "c.txt"]);
    for (_, offset) in &headers {
        let o = *offset as usize;
        assert_eq!(&archive[o..o + 4], &0x04034b50u32.to_le_bytes());
    }
}

/// A comment that contains the trailer magic bytes does not fool the
/// locator: the rightmost in-window match is the true trailer.
#[test]
fn trailer_found_despite_magic_in_comment() {
    let comment = [b'x', 0x50, 0x4b, 0x05, 0x06, b'y'];
    let archive = build_archive(&[(b"a.txt", &HI_DEFLATE)], &comment);
    let true_pos = archive.len() - 22 - comment.len();
    let (t, pos) = CentralDirectorEnd::find_and_parse(&archive).unwrap();
    assert_eq!(pos, true_pos);
    assert_eq!(t.total_number_of_files, 1);
    assert_eq!(t.comment, comment.to_vec());
}

/// A source shorter than the fixed trailer span fails with TooSmall.
#[test]
fn too_small_source_is_rejected() {
    assert!(matches!(
        CentralDirectorEnd::find_and_parse(&[0u8; 21]),
        Err(ArchiveError::TooSmall)
    ));
    assert!(matches!(
        CentralDirectorEnd::find_and_parse(&[0u8; 0]),
        Err(ArchiveError::TooSmall)
    ));
    assert_eq!(get_local_headers(&[0u8; 10]), Err(ArchiveError::TooSmall));
}

/// A window with no trailer signature fails with TrailerNotFound.
#[test]
fn missing_trailer_is_reported() {
    assert!(matches!(
        CentralDirectorEnd::find_and_parse(&[0u8; 64]),
        Err(ArchiveError::TrailerNotFound)
    ));
}

/// A member whose declared compressed size exceeds the remaining bytes
/// fails with Truncated.
#[test]
fn oversized_compressed_size_is_truncated() {
    let mut bytes = local_header(b"a.txt", &HI_DEFLATE);
    // Declare far more payload than the source holds.
    bytes[18..22].copy_from_slice(&1000u32.to_le_bytes());
    assert_eq!(extract_member(&bytes, 0), Err(ArchiveError::Truncated));
}

/// A local header whose signature does not match fails with BadSignature.
#[test]
fn wrong_local_signature_is_rejected() {
    let mut bytes = local_header(b"a.txt", &HI_DEFLATE);
    bytes[0] = 0x51;
    assert_eq!(extract_member(&bytes, 0), Err(ArchiveError::BadSignature));
}

/// End to end: a hand-built one-member archive with stored name "a.txt"
/// and Deflate-compressed content "hi" extracts to exactly that.
#[test]
fn one_member_end_to_end() {
    let archive = build_archive(&[(b"a.txt", &HI_DEFLATE)], b"");
    let items = parse_osz(&archive).unwrap();
    assert_eq!(items.len(), 1);
    assert_eq!(items[0].0, "a.txt");
    assert_eq!(items[0].1, b"hi".to_vec());
}

/// The decompressor really runs: the extracted bytes differ from the raw
/// compressed payload.
#[test]
fn extraction_decompresses() {
    let archive = build_archive(&[(b"a.txt", &HI_DEFLATE)], b"");
    let items = parse_osz(&archive).unwrap();
    assert_ne!(items[0].1, HI_DEFLATE.to_vec());
    assert_eq!(items[0].1, vec![b'h', b'i']);
}

/// Extraction of the same source twice yields identical results.
#[test]
fn extraction_is_repeatable() {
    let archive = build_archive(&[(b"a.osu", &HI_DEFLATE), (b"b.txt", &HI_DEFLATE)], b"");
    let first = unzip_osz(&archive).unwrap();
    let second = unzip_osz(&archive).unwrap();
    assert_eq!(first, second);
    let third = parse_osz(&archive).unwrap();
    let fourth = parse_osz(&archive).unwrap();
    assert_eq!(third, fourth);
}

/// A later member with the same name overwrites the earlier one.
#[test]
fn duplicate_names_last_write_wins() {
    // Second member stores "hi" again but the first stores junk the
    // decoder rejects, so only the second can extract.
    let bad = [0xFFu8, 0xFF, 0xFF];
    let archive = build_archive(&[(b"dup.txt", &bad), (b"dup.txt", &HI_DEFLATE)], b"");
    let headers = get_local_headers(&archive).unwrap();
    assert_eq!(headers.len(), 1);
    let items = parse_osz(&archive).unwrap();
    assert_eq!(items.len(), 1);
    assert_eq!(items[0].0, "dup.txt");
    assert_eq!(items[0].1, b"hi".to_vec());
}

/// A malformed payload fails that member alone; other members of the
/// same archive still extract.
#[test]
fn bad_member_does_not_abort_others() {
    let bad = [0xFFu8, 0xFF, 0xFF];
    let archive = build_archive(&[(b"bad.bin", &bad), (b"good.txt", &HI_DEFLATE)], b"");
    let items = unzip_osz(&archive).unwrap();
    assert_eq!(items.len(), 2);
    assert_eq!(items[0].0, "bad.bin");
    assert_eq!(items[0].1, Err(ArchiveError::DecompressionFailed));
    assert_eq!(items[1].0, "good.txt");
    assert_eq!(items[1].1, Ok(b"hi".to_vec()));
}

/// A corrupted central directory entry signature aborts the catalog.
#[test]
fn corrupt_directory_is_fatal() {
    let mut archive = build_archive(&[(b"a.txt", &HI_DEFLATE)], b"");
    let cd_offset = u32::from_le_bytes(
        archive[archive.len() - 6..archive.len() - 2]
            .try_into()
            .unwrap(),
    ) as usize;
    archive[cd_offset] = 0x51;
    assert_eq!(get_local_headers(&archive), Err(ArchiveError::BadSignature));
    assert_eq!(parse_osz(&archive), Err(ArchiveError::BadSignature));
}

/// An archive with no members yields an empty catalog and extraction.
#[test]
fn empty_archive_extracts_to_nothing() {
    let archive = build_archive(&[], b"");
    assert_eq!(get_local_headers(&archive).unwrap().len(), 0);
    assert_eq!(parse_osz(&archive).unwrap().len(), 0);
}

/// A trailer whose declared comment runs past the end of the source
/// fails with Truncated.
#[test]
fn truncated_trailer_comment_is_rejected() {
    let mut bytes = trailer(0, 0, 0, b"abcdefghij");
    bytes.truncate(bytes.len() - 7);
    assert!(matches!(
        CentralDirectorEnd::find_and_parse(&bytes),
        Err(ArchiveError::Truncated)
    ));
}

/// A directory entry whose declared name length runs past the end of the
/// source aborts the catalog with Truncated.
#[test]
fn truncated_directory_entry_is_fatal() {
    let mut archive = build_archive(&[(b"a.txt", &HI_DEFLATE)], b"");
    let cd_offset = u32::from_le_bytes(
        archive[archive.len() - 6..archive.len() - 2]
            .try_into()
            .unwrap(),
    ) as usize;
    archive[cd_offset + 28..cd_offset + 30].copy_from_slice(&0xFFFFu16.to_le_bytes());
    assert_eq!(get_local_headers(&archive), Err(ArchiveError::Truncated));
}

/// A member name with high and control bytes reaches the caller decoded
/// through the legacy code page.
#[test]
fn high_byte_name_decodes_in_catalog() {
    let archive = build_archive(&[(&[0x80, 0x01, b'!'], &HI_DEFLATE)], b"");
    let items = parse_osz(&archive).unwrap();
    assert_eq!(items.len(), 1);
    assert_eq!(items[0].0, "Ç\u{1}!");
}

/// One central directory entry parses field by field: offset, decoded
/// name, raw extra field, decoded comment, and the position after it.
#[test]
fn central_entry_parses_fields() {
    let mut bytes = central_entry(&[b'n', 0x80], 7, 0x1234);
    // Rewrite lengths to add a 2-byte extra field and 1-byte comment.
    bytes[30..32].copy_from_slice(&2u16.to_le_bytes());
    bytes[32..34].copy_from_slice(&1u16.to_le_bytes());
    bytes.extend_from_slice(&[0xAA, 0xBB]); // extra
    bytes.push(0x81); // comment
    let (e, next) = CentralDirectory::parse(&bytes, 0).unwrap();
    assert_eq!(e.relative_offset, 0x1234);
    assert_eq!(e.file_name, "nÇ");
    assert_eq!(e.extra_field, vec![0xAA, 0xBB]);
    assert_eq!(e.file_comment, "ü");
    assert_eq!(next, bytes.len());
}

/// The trailer record parses field by field.
#[test]
fn trailer_parses_fields() {
    let bytes = trailer(2, 92, 70, b"note");
    let t = CentralDirectorEnd::parse(&bytes, 0).unwrap();
    assert_eq!(t.disk_number, 0);
    assert_eq!(t.disk_number_with_central_directory, 0);
    assert_eq!(t.number_of_files, 2);
    assert_eq!(t.total_number_of_files, 2);
    assert_eq!(t.central_directory_size, 92);
    assert_eq!(t.central_directory_offset, 70);
    assert_eq!(t.comment, b"note".to_vec());
}
