use classvm::class::simple_loader::constant_pool::ConstantUTF8Info;
use classvm::class::simple_loader::mutf8::{decode_code_units, utf16_to_string};
use classvm::error::DecodeError;

#[test]
fn ascii_passes_through() {
    assert_eq!(ConstantUTF8Info::decode_mutf8(&b"Hello".to_vec()), Ok("Hello".to_string()));
    assert_eq!(ConstantUTF8Info::decode_mutf8(&vec![]), Ok(String::new()));
    assert_eq!(ConstantUTF8Info::decode_mutf8(&vec![0x7F]), Ok("\u{7F}".to_string()));
}

#[test]
fn two_byte_sequences_give_one_unit() {
    assert_eq!(decode_code_units(&vec![0xC3, 0xA9]), Ok(vec![0x00E9]));
    assert_eq!(ConstantUTF8Info::decode_mutf8(&vec![0xC3, 0xA9]), Ok("\u{E9}".to_string()));
    // the two-byte form of U+0000
    assert_eq!(decode_code_units(&vec![0xC0, 0x80]), Ok(vec![0x0000]));
    assert_eq!(ConstantUTF8Info::decode_mutf8(&vec![0x41, 0xC0, 0x80, 0x42]), Ok("A\u{0}B".to_string()));
    assert_eq!(decode_code_units(&vec![0xDF, 0xBF]), Ok(vec![0x07FF]));
}

#[test]
fn three_byte_sequences_give_one_unit() {
    assert_eq!(decode_code_units(&vec![0xE2, 0x82, 0xAC]), Ok(vec![0x20AC]));
    assert_eq!(ConstantUTF8Info::decode_mutf8(&vec![0xE2, 0x82, 0xAC]), Ok("\u{20AC}".to_string()));
    assert_eq!(decode_code_units(&vec![0xEF, 0xBF, 0xBF]), Ok(vec![0xFFFF]));
    assert_eq!(decode_code_units(&vec![0xE0, 0x80, 0x80]), Ok(vec![0x0000]));
}

#[test]
fn surrogate_pair_gives_one_character() {
    let bytes = vec![0xED, 0xA0, 0xBD, 0xED, 0xB8, 0x80];
    assert_eq!(decode_code_units(&bytes), Ok(vec![0xD83D, 0xDE00]));
    assert_eq!(ConstantUTF8Info::decode_mutf8(&bytes), Ok("\u{1F600}".to_string()));
    assert_eq!(utf16_to_string(&vec![0xD800, 0xDC00]), "\u{10000}");
    assert_eq!(utf16_to_string(&vec![0xDBFF, 0xDFFF]), "\u{10FFFF}");
}

#[test]
fn lone_surrogate_becomes_replacement_character() {
    assert_eq!(ConstantUTF8Info::decode_mutf8(&vec![0xED, 0xA0, 0x80]), Ok("\u{FFFD}".to_string()));
    assert_eq!(utf16_to_string(&vec![0xD83D]), "\u{FFFD}");
    assert_eq!(utf16_to_string(&vec![0xDE00]), "\u{FFFD}");
    assert_eq!(utf16_to_string(&vec![0xDE00, 0xD83D]), "\u{FFFD}\u{FFFD}");
    assert_eq!(utf16_to_string(&vec![0xD83D, 0x41]), "\u{FFFD}A");
    assert_eq!(utf16_to_string(&vec![0xD83D, 0xD83D, 0xDE00]), "\u{FFFD}\u{1F600}");
}

#[test]
fn utf16_units_outside_surrogates_map_to_themselves() {
    assert_eq!(utf16_to_string(&vec![0x48, 0x69, 0x20AC, 0xD7FF, 0xE000, 0xFFFF]), "Hi\u{20AC}\u{D7FF}\u{E000}\u{FFFF}");
    assert_eq!(utf16_to_string(&vec![]), "");
}

#[test]
fn malformed_sequences_are_rejected() {
    let bad: Vec<Vec<u8>> = vec![
        vec![0x80],
        vec![0xBF],
        vec![0xF0, 0x9F, 0x98, 0x80],
        vec![0xFF],
        vec![0xC3],
        vec![0xC3, 0x41],
        vec![0xC3, 0xC3],
        vec![0xE2],
        vec![0xE2, 0x82],
        vec![0xE2, 0x41, 0xAC],
        vec![0xE2, 0x82, 0x41],
        vec![0x41, 0x42, 0xE2, 0x82],
    ];
    for bytes in bad {
        assert_eq!(ConstantUTF8Info::decode_mutf8(&bytes), Err(DecodeError::MalformedStringEncoding));
        assert_eq!(decode_code_units(&bytes), Err(DecodeError::MalformedStringEncoding));
    }
}
