use lemon_pdf::deserializer::{is_space, Error, PdfDeserializer, Token};

#[test]
fn space_class_includes_nul() {
    for b in [0u8, 9, 10, 12, 13, 32] {
        assert!(is_space(b));
    }
    for b in [b'a', b'/', 1u8, 48] {
        assert!(!is_space(b));
    }
}

#[test]
fn take_and_whitespace_runs() {
    let mut lexer = PdfDeserializer::new(b"  \tabc def".to_vec());
    assert_eq!(lexer.take_ws(), b"  \t");
    assert_eq!(lexer.take_until_ws(), b"abc");
    assert_eq!(lexer.take_ws(), b" ");
    assert_eq!(lexer.take(2), b"de");
    assert_eq!(lexer.take_until_ws(), b"f");
}

#[test]
fn tokenizes_names_and_delimiters() {
    let mut lexer = PdfDeserializer::new(b" /Name << >> [ ]".to_vec());
    assert_eq!(lexer.next_token(), Ok(Token::Name(b"Name".to_vec())));
    assert_eq!(lexer.next_token(), Ok(Token::StartDict));
    assert_eq!(lexer.next_token(), Ok(Token::EndDict));
    assert_eq!(lexer.next_token(), Ok(Token::StartArray));
    assert_eq!(lexer.next_token(), Ok(Token::EndArray));
}

#[test]
fn tokenizes_indirect_references() {
    let mut lexer = PdfDeserializer::new(b"12 0 R ".to_vec());
    assert_eq!(lexer.next_token(), Ok(Token::IndirectReference(12, 0)));
    let mut negative = PdfDeserializer::new(b"-3 7 R ".to_vec());
    assert_eq!(negative.next_token(), Ok(Token::IndirectReference(-3, 7)));
}

#[test]
fn malformed_input_is_an_error() {
    // a lone angle bracket matches no token rule
    let mut lexer = PdfDeserializer::new(b"<x".to_vec());
    assert_eq!(lexer.next_token(), Err(Error::Malformed));
    // a reference without its trailing space does not parse
    let mut cut = PdfDeserializer::new(b"12 0 R".to_vec());
    assert_eq!(cut.next_token(), Err(Error::Malformed));
    // a numeral beyond the signed 64-bit range does not parse
    let mut wide = PdfDeserializer::new(b"99999999999999999999 0 R ".to_vec());
    assert_eq!(wide.next_token(), Err(Error::Malformed));
}

#[test]
fn i64_boundaries_parse() {
    let mut lexer = PdfDeserializer::new(b"-9223372036854775808 9223372036854775807 R ".to_vec());
    assert_eq!(
        lexer.next_token(),
        Ok(Token::IndirectReference(i64::MIN, i64::MAX))
    );
}
