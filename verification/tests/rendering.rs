use lemon_pdf::dictionary::Dictionary;
use lemon_pdf::object::{write_value, Formatter, PdfFormat, Real, Value};

fn rendered_value(v: &Value) -> Vec<u8> {
    let mut f = Formatter::new();
    write_value(v, &mut f);
    f.into_bytes()
}

#[test]
fn it_works() {
    assert_eq!(2 + 2, 4);
}

#[test]
fn test_sequence() {
    let v = Value::Array(vec![
        Value::String(b"a".to_vec()),
        Value::String(b"b".to_vec()),
    ]);
    assert_eq!(rendered_value(&v), b"[ (a) (b) ]");
}

#[test]
fn test_escape_sequence() {
    let mut f = Formatter::new();
    f.byte(b'[');
    f.byte(b' ');
    f.string_full(b"\n");
    f.byte(b' ');
    f.string_full(b"\x00");
    f.byte(b' ');
    f.byte(b']');
    assert_eq!(f.into_bytes(), b"[ (\\n) (\\d000) ]");
}

#[test]
fn test_struct() {
    let f = Formatter::new()
        .format_dictionary()
        .key_value(&String::from("Type"), &String::from("TStruct"))
        .key_value(&String::from("a"), &10i64)
        .key_value(&String::from("b"), &b"ten".to_vec())
        .finish();
    assert_eq!(f.into_bytes(), b"<< /Type /TStruct\n/a 10\n/b (ten)\n>>");

    let f = Formatter::new()
        .format_dictionary()
        .key_value(&String::from("a"), &10i64)
        .key_value(&String::from("b"), &b"ten".to_vec())
        .finish();
    assert_eq!(f.into_bytes(), b"<< /a 10\n/b (ten)\n>>");
}

#[test]
fn empty_array_renders_with_space() {
    assert_eq!(rendered_value(&Value::Array(Vec::new())), b"[ ]");
}

#[test]
fn rendering_is_deterministic_within_a_run() {
    let make = || {
        let mut d = Dictionary::new();
        d.insert(String::from("B"), Value::Integer(2));
        d.insert(String::from("A"), Value::Integer(1));
        Value::Dictionary(d)
    };
    let first = rendered_value(&make());
    let second = rendered_value(&make());
    assert_eq!(first, second);
    assert_eq!(first, b"<< /B 2\n/A 1\n>>");
}

#[test]
fn escaping_of_parens_and_backslash() {
    let mut f = Formatter::new();
    f.string_simple(b"a(b)c\\d");
    assert_eq!(f.into_bytes(), b"(a\\(b\\)c\\\\d)");
}

#[test]
fn printable_ascii_passes_through_unescaped() {
    let mut f = Formatter::new();
    f.string_full(b"AZaz09~!");
    assert_eq!(f.into_bytes(), b"(AZaz09~!)");
}

#[test]
fn full_escaping_short_escapes() {
    let mut f = Formatter::new();
    f.string_full(b"\x0c\x08\t\r\n");
    assert_eq!(f.into_bytes(), b"(\\f\\b\\t\\r\\n)");
}

#[test]
fn reals_render_with_two_decimals() {
    assert_eq!(rendered_value(&Value::Real(Real::from_hundredths(-5))), b"-0.05");
    assert_eq!(rendered_value(&Value::Real(Real::from_hundredths(4800))), b"48.00");
    assert_eq!(rendered_value(&Value::Real(Real::from_hundredths(123456))), b"1234.56");
}

#[test]
fn integers_render_in_decimal() {
    assert_eq!(rendered_value(&Value::Integer(0)), b"0");
    assert_eq!(rendered_value(&Value::Integer(-42)), b"-42");
    assert_eq!(rendered_value(&Value::Integer(i64::MIN)), b"-9223372036854775808");
    assert_eq!(rendered_value(&Value::Integer(i64::MAX)), b"9223372036854775807");
}

#[test]
fn booleans_null_and_names() {
    assert_eq!(rendered_value(&Value::Boolean(true)), b"true");
    assert_eq!(rendered_value(&Value::Boolean(false)), b"false");
    assert_eq!(rendered_value(&Value::Null), b"null");
    assert_eq!(rendered_value(&Value::Name(String::from("Catalog"))), b"/Catalog");
}

#[test]
fn unit_variants_render_as_names() {
    let mut f = Formatter::new();
    lemon_pdf::font::FontType::Type1.write(&mut f);
    assert_eq!(f.into_bytes(), b"/Type1");
}

#[test]
fn insert_replaces_an_existing_key() {
    let mut d = Dictionary::new();
    d.insert(String::from("A"), Value::Integer(1));
    d.insert(String::from("B"), Value::Integer(2));
    d.insert(String::from("A"), Value::Integer(3));
    assert_eq!(rendered_value(&Value::Dictionary(d)), b"<< /A 3\n/B 2\n>>");
}

#[test]
fn info_insert_replaces_an_existing_key() {
    let mut info = lemon_pdf::document::DocumentInfo::new();
    info.insert(String::from("Title"), b"one".to_vec());
    info.insert(String::from("Title"), b"two".to_vec());
    assert_eq!(info.entries.len(), 1);
    assert_eq!(info.entries[0].1, b"two");
}
