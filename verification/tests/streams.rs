use std::io::Read;

use lemon_pdf::object::{write_value, Formatter, PdfFormat, Value};
use lemon_pdf::stream::{Stream, StreamEncoder, StreamFilter};

fn rendered_stream(s: Stream) -> Vec<u8> {
    let mut f = Formatter::new();
    write_value(&Value::Stream(s), &mut f);
    f.into_bytes()
}

#[test]
fn identity_stream_passes_bytes_through() {
    let mut encoder = StreamEncoder::new(None);
    encoder.write(b"BT ET ");
    let stream = encoder.into_stream();
    assert_eq!(stream.bytes, b"BT ET ");
    assert!(stream.filter.is_none());
    let text = String::from_utf8_lossy(&rendered_stream(stream)).into_owned();
    assert!(text.starts_with("<< /Length 6\n>>\nstream\nBT ET \nendstream"));
}

#[test]
fn deflate_round_trip_reproduces_input() {
    let payload: Vec<u8> = (0..200u8).cycle().take(5000).collect();
    let mut encoder = StreamEncoder::new(Some(StreamFilter::Deflate));
    encoder.write(&payload);
    let stream = encoder.into_stream();
    assert_eq!(stream.filter, Some(StreamFilter::Deflate));
    // the encoded bytes differ from the input and actually compress it
    assert!(stream.bytes != payload);
    assert!(stream.bytes.len() < payload.len());
    // a standard zlib decompressor reproduces exactly the encoder's input
    let mut decoder = flate2::read::ZlibDecoder::new(stream.bytes.as_slice());
    let mut inflated = Vec::new();
    decoder.read_to_end(&mut inflated).unwrap();
    assert_eq!(inflated, payload);
}

#[test]
fn rendered_length_equals_encoded_byte_count() {
    let mut encoder = StreamEncoder::new(Some(StreamFilter::Deflate));
    encoder.write(b"some page content, repeated repeated repeated");
    let stream = encoder.into_stream();
    let encoded_len = stream.bytes.len();
    let text = String::from_utf8_lossy(&rendered_stream(stream)).into_owned();
    let expected = format!("/Length {}\n", encoded_len);
    assert!(text.contains(&expected));
    assert!(text.contains("/Filter /FlateDecode\n"));
}

#[test]
fn crossref_add_patch_len() {
    let mut table = lemon_pdf::crossref::CrossRef::default();
    assert_eq!(table.len(), 0);
    let first = table.add_entry(0, 0);
    let second = table.add_entry(0, 0);
    assert_eq!((first, second), (0, 1));
    assert_eq!(table.len(), 2);
    table.patch(1, 99);
    assert_eq!(table.entries[1], (99, 0));
    assert_eq!(table.entries[0], (0, 0));
}

#[test]
fn xref_lines_are_fixed_width() {
    let mut table = lemon_pdf::crossref::CrossRef::default();
    table.add_entry(15, 0);
    table.add_entry(1234567890, 7);
    let mut f = Formatter::new();
    table.write(&mut f);
    let text = String::from_utf8_lossy(&f.into_bytes()).into_owned();
    assert_eq!(
        text,
        "xref\n0 2\n0000000015 00000 n\r\n1234567890 00007 n\r\n"
    );
}

#[test]
fn cid_glyphs_use_full_escaping() {
    let mut page_context = lemon_pdf::content::PageContext::new(None);
    page_context.draw_cid_glyphs(&vec![0x0041u16]);
    let bytes = page_context.content.into_bytes();
    assert_eq!(bytes, b"(\\d000A) Tj ");
}
