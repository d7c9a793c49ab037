//! The process-message codec and the wide-string decode.

use cef_simple::message::ProcessMessage;
use cef_simple::utf16::{decode_utf16_chars, decode_utf16_lossy};

/// Encoding a message with arguments `["hello", true]` and reading it back
/// yields exactly `("hello", true)` at positions 0 and 1.
#[test]
fn message_round_trip() {
    let mut m = ProcessMessage::create("greeting".to_string());
    m.set_size(2);
    m.set_string(0, "hello".to_string());
    m.set_bool(1, true);

    assert_eq!(m.name(), "greeting");
    assert_eq!(m.arg_count(), 2);
    assert_eq!(m.get_string(0), Some("hello".to_string()));
    assert_eq!(m.get_bool(1), Some(true));
}

/// Reading a position with the other type, or beyond the size, yields
/// nothing rather than failing.
#[test]
fn message_type_mismatch_reads_as_absent() {
    let mut m = ProcessMessage::create("mixed".to_string());
    m.set_size(2);
    m.set_string(0, "text".to_string());
    m.set_bool(1, false);

    assert_eq!(m.get_bool(0), None);
    assert_eq!(m.get_string(1), None);
    assert_eq!(m.get_string(2), None);
    assert_eq!(m.get_bool(7), None);
}

/// Freshly sized positions are null: they read as absent for both types,
/// and shrinking drops positions.
#[test]
fn message_set_size_nulls_and_truncates() {
    let mut m = ProcessMessage::create("sized".to_string());
    m.set_size(3);
    assert_eq!(m.arg_count(), 3);
    assert_eq!(m.get_string(2), None);
    assert_eq!(m.get_bool(2), None);

    m.set_string(2, "kept?".to_string());
    m.set_size(2);
    assert_eq!(m.arg_count(), 2);
    assert_eq!(m.get_string(2), None);

    m.set_size(4);
    assert_eq!(m.arg_count(), 4);
    assert_eq!(m.get_string(3), None);
}

/// Plain text survives the decode unchanged.
#[test]
fn decode_plain_text() {
    let units: Vec<u16> = "hello".encode_utf16().collect();
    assert_eq!(decode_utf16_lossy(&units), "hello".to_string());
}

/// An unpaired surrogate decodes without error: the replacement character
/// stands at its position and the rest of the text is kept.
#[test]
fn decode_unpaired_surrogate_substitutes_replacement() {
    let units: Vec<u16> = vec![0x0068, 0xD800, 0x0069];
    let decoded = decode_utf16_lossy(&units);
    assert_eq!(decoded, "h\u{FFFD}i".to_string());

    let chars = decode_utf16_chars(&units);
    assert_eq!(chars, vec!['h', '\u{FFFD}', 'i']);
}

/// A lone trailing surrogate, and a high surrogate at the very end, are
/// each replaced; the decode always completes.
#[test]
fn decode_misplaced_surrogates() {
    let lone_low: Vec<u16> = vec![0xDC00, 0x0061];
    assert_eq!(decode_utf16_lossy(&lone_low), "\u{FFFD}a".to_string());

    let trailing_high: Vec<u16> = vec![0x0061, 0xD83D];
    assert_eq!(decode_utf16_lossy(&trailing_high), "a\u{FFFD}".to_string());
}

/// A well-formed surrogate pair decodes to its supplementary character.
#[test]
fn decode_surrogate_pair() {
    // U+1F600, encoded as the pair 0xD83D 0xDE00.
    let units: Vec<u16> = vec![0xD83D, 0xDE00];
    assert_eq!(decode_utf16_lossy(&units), "\u{1F600}".to_string());
}

/// The empty wide string decodes to the empty string.
#[test]
fn decode_empty() {
    let units: Vec<u16> = Vec::new();
    assert_eq!(decode_utf16_lossy(&units), String::new());
}
