use test_optimization::text::text_from_wire;
use test_optimization::text::CText;
use test_optimization::text::MarshalError;
use test_optimization::text::TERMINATOR;

#[test]
fn marshaled_text_is_terminated() {
    let text = CText::new("file.rs").unwrap();
    assert_eq!(text.as_bytes_with_nul(), b"file.rs\0");
    assert_eq!(text.len(), 7);
    assert!(!text.is_empty());
}

#[test]
fn empty_text_marshals_to_a_lone_terminator() {
    let text = CText::new("").unwrap();
    assert_eq!(text.as_bytes_with_nul(), &[TERMINATOR]);
    assert_eq!(text.len(), 0);
    assert!(text.is_empty());
}

#[test]
fn text_beyond_ascii_marshals_to_its_utf8_bytes() {
    let text = CText::new("é€😀").unwrap();
    assert_eq!(
        text.as_bytes_with_nul(),
        &[0xC3, 0xA9, 0xE2, 0x82, 0xAC, 0xF0, 0x9F, 0x98, 0x80, 0x00]
    );
    assert_eq!(text.len(), 9);
}

#[test]
fn embedded_terminator_is_rejected_with_its_offset() {
    assert_eq!(
        CText::new("ab\0cd"),
        Err(MarshalError::EmbeddedTerminator { position: 2 })
    );
}

#[test]
fn first_of_several_terminators_is_reported() {
    assert_eq!(
        CText::new("\0a\0"),
        Err(MarshalError::EmbeddedTerminator { position: 0 })
    );
    assert_eq!(
        CText::new("é\0\0"),
        Err(MarshalError::EmbeddedTerminator { position: 2 })
    );
}

#[test]
fn terminator_at_the_end_is_rejected() {
    assert_eq!(
        CText::new("abc\0"),
        Err(MarshalError::EmbeddedTerminator { position: 3 })
    );
}

#[test]
fn bytes_marshal_like_text() {
    let text = CText::from_bytes(b"abc").unwrap();
    assert_eq!(text, CText::new("abc").unwrap());
    assert_eq!(
        CText::from_bytes(&[1, 2, 0, 3]),
        Err(MarshalError::EmbeddedTerminator { position: 2 })
    );
}

#[test]
fn bytes_that_are_no_utf8_still_marshal() {
    let text = CText::from_bytes(&[0xFF, 0xFE]).unwrap();
    assert_eq!(text.as_bytes_with_nul(), &[0xFF, 0xFE, 0x00]);
}

#[test]
fn clone_holds_the_same_text() {
    let text = CText::new("suite").unwrap();
    let copy = text.clone();
    assert_eq!(copy, text);
    assert_eq!(copy.as_bytes_with_nul(), b"suite\0");
}

#[test]
fn marshaled_text_decodes_to_itself() {
    for text in ["", "plain", "with space", "é€😀", "line\nbreak"] {
        assert_eq!(CText::new(text).unwrap().decode(), text);
    }
}

#[test]
fn invalid_bytes_decode_with_replacement_characters() {
    let text = CText::from_bytes(&[b'a', 0xFF, b'b']).unwrap();
    assert_eq!(text.decode(), "a\u{FFFD}b");
}

#[test]
fn truncated_sequence_decodes_with_a_replacement_character() {
    let text = CText::from_bytes(&[0xE2, 0x82]).unwrap();
    assert_eq!(text.decode(), "\u{FFFD}");
}

#[test]
fn null_pointer_reads_as_the_empty_text() {
    assert_eq!(text_from_wire(&None), "");
}

#[test]
fn inbound_text_is_decoded() {
    let text = Some(CText::new("My Suite").unwrap());
    assert_eq!(text_from_wire(&text), "My Suite");
    let broken = Some(CText::from_bytes(&[0xC3]).unwrap());
    assert_eq!(text_from_wire(&broken), "\u{FFFD}");
}
