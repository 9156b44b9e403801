use bzfquery::error::QueryError;
use bzfquery::text::decode_text;

#[test]
fn callsign_nexus_padded_with_nuls() {
    let mut field = vec![0u8; 32];
    field[..5].copy_from_slice(b"Nexus");
    assert_eq!(field.len(), 32);
    assert_eq!(field[5..].len(), 27);
    let text = decode_text(&field).unwrap();
    assert_eq!(text, "Nexus");
    assert!(!text.contains('\0'));
}

#[test]
fn text_of_only_nuls_is_empty() {
    assert_eq!(decode_text(&[0u8; 128]), Ok(String::new()));
    assert_eq!(decode_text(&[]), Ok(String::new()));
}

#[test]
fn text_that_fills_the_field_is_kept_whole() {
    let field = [b'x'; 32];
    assert_eq!(decode_text(&field), Ok("x".repeat(32)));
}

#[test]
fn text_keeps_nuls_that_are_not_at_the_end() {
    let field = [0u8, b'a', 0, b'b', 0, 0];
    assert_eq!(decode_text(&field), Ok("\0a\0b".to_string()));
}

#[test]
fn text_of_several_bytes_a_character() {
    let mut field = vec![0u8; 32];
    let name = "Zo\u{eb} \u{2605} \u{1f600}";
    field[..name.len()].copy_from_slice(name.as_bytes());
    assert_eq!(decode_text(&field), Ok(name.to_string()));
}

#[test]
fn text_that_is_not_utf8_is_an_error() {
    let mut field = vec![0u8; 32];
    field[0] = 0xff;
    assert_eq!(decode_text(&field), Err(QueryError::TextDecode));
    field[0] = b'a';
    field[1] = 0xc3;
    assert_eq!(decode_text(&field), Err(QueryError::TextDecode));
    assert_eq!(decode_text(&[0xe2, 0x98]), Err(QueryError::TextDecode));
    assert_eq!(decode_text(&[0xc0, 0x80, 0]), Err(QueryError::TextDecode));
    assert_eq!(decode_text(&[0xed, 0xa0, 0x80]), Err(QueryError::TextDecode));
}
