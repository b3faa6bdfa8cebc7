use codepage_437::{FromCp437, CP437_CONTROL};

use oszip::cp437::{decode_cp437, encode_byte};

/// Decoding every single byte agrees with the reference code-page-437
/// table (control dialect) for the whole 0x00..=0xFF range.
#[test]
fn decode_matches_reference_table() {
    for b in 0u16..=255u16 {
        let b = b as u8;
        let ours = decode_cp437(&[b]);
        let reference = String::from_cp437(vec![b], &CP437_CONTROL);
        assert_eq!(ours, reference, "byte 0x{:02x}", b);
    }
}

/// Whole-string decoding agrees with the reference crate on a name that
/// mixes ASCII, control-range bytes and high bytes.
#[test]
fn decode_mixed_name_matches_reference() {
    let raw: Vec<u8> = vec![0x01, 0x1F, b'a', b'.', b't', b'x', b't', 0x80, 0xFF, 0xE1];
    let ours = decode_cp437(&raw);
    let reference = String::from_cp437(raw.clone(), &CP437_CONTROL);
    assert_eq!(ours, reference);
}

/// Encoding is the exact inverse of decoding on every byte, control and
/// high ranges included.
#[test]
fn encode_inverts_decode_for_every_byte() {
    for b in 0u16..=255u16 {
        let b = b as u8;
        let text = decode_cp437(&[b]);
        let c = text.chars().next().unwrap();
        assert_eq!(text.chars().count(), 1);
        assert_eq!(encode_byte(c), Some(b), "byte 0x{:02x}", b);
    }
}

/// A string expressible in the code page round-trips through encoding
/// and decoding unchanged.
#[test]
fn string_round_trip() {
    let text = "Füße ½ price α.txt";
    let mut raw: Vec<u8> = Vec::new();
    for c in text.chars() {
        raw.push(encode_byte(c).expect("expressible"));
    }
    assert_eq!(decode_cp437(&raw), text);
}

/// A character outside the code page has no encoding.
#[test]
fn unrepresentable_character_is_rejected() {
    assert_eq!(encode_byte('ź'), None);
    assert_eq!(encode_byte('€'), None);
}
