//! Streams: byte payloads wrapped with an optional compression filter.
//! The rendered length entry always equals the length of the (possibly
//! compressed) payload.

use vstd::prelude::*;

use crate::dictionary::Dictionary;
use crate::object::{name_bytes, render_stream, write_stream, Formatter, PdfFormat, Value};

verus! {

/// A named compression applied to a stream's payload.
#[derive(Debug, Copy, Clone, PartialEq, Eq, Structural)]
pub enum StreamFilter {
    /// Standard DEFLATE compression in a zlib envelope.
    Deflate,
}

impl PdfFormat for StreamFilter {
    open spec fn rendered(&self) -> Seq<u8> {
        name_bytes("FlateDecode"@)
    }

    fn write(&self, f: &mut Formatter) {
        f.name("FlateDecode");
    }
}

/// The bytes that the zlib encoder produces for the given input at the
/// default compression level. The result depends on the input alone.
pub uninterp spec fn zlib_deflate(data: Seq<u8>) -> Seq<u8>;

/// Relies on flate2's `ZlibEncoder` (`new`, `write_all`, `finish`): it
/// compresses the input with standard DEFLATE in a zlib envelope, at the
/// default level, deterministically in the input. Writing into an in-memory
/// sink does not fail.
#[verifier::external_body]
fn zlib_compress(data: &Vec<u8>) -> (r: Vec<u8>)
    ensures
        r@ == zlib_deflate(data@),
{
    let mut enc = flate2::write::ZlibEncoder::new(Vec::new(), flate2::Compression::default());
    std::io::Write::write_all(&mut enc, data.as_slice()).unwrap();
    enc.finish().unwrap()
}

/// Collects payload bytes and encodes them with the chosen filter.
#[derive(Debug)]
pub struct StreamEncoder {
    /// The filter selected at construction, if any.
    pub filter: Option<StreamFilter>,
    /// The raw payload collected so far.
    pub data: Vec<u8>,
}

impl StreamEncoder {
    /// The filter selected at construction.
    pub open spec fn spec_filter(&self) -> Option<StreamFilter> {
        self.filter
    }

    /// The raw payload collected so far.
    pub open spec fn spec_data(&self) -> Seq<u8> {
        self.data@
    }

    /// An encoder for the given filter; `None` passes bytes through.
    pub fn new(filter: Option<StreamFilter>) -> (r: Self)
        ensures
            r.spec_filter() == filter,
            r.spec_data() == Seq::<u8>::empty(),
    {
        let data: Vec<u8> = Vec::new();
        assert(data@ =~= Seq::<u8>::empty());
        StreamEncoder { filter, data }
    }

    /// Appends payload bytes.
    pub fn write(&mut self, buf: &[u8])
        ensures
            final(self).spec_data() == old(self).spec_data() + buf@,
            final(self).spec_filter() == old(self).spec_filter(),
    {
        let mut i: usize = 0;
        assert(self.data@ =~= old(self).spec_data() + buf@.take(0));
        while i < buf.len()
            invariant
                self.data@ == old(self).spec_data() + buf@.take(i as int),
                self.filter == old(self).spec_filter(),
                i <= buf@.len(),
            decreases buf@.len() - i,
        {
            self.data.push(buf[i]);
            assert(self.data@ =~= old(self).spec_data() + buf@.take(i + 1));
            i = i + 1;
        }
        assert(buf@.take(buf@.len() as int) =~= buf@);
    }

    /// Finalizes the encoder: flushes the compressor and yields a stream
    /// carrying the encoded bytes, the filter tag used, and no auxiliary
    /// entries.
    pub fn into_stream(self) -> (r: Stream)
        ensures
            r.filter == self.spec_filter(),
            r.bytes@ == match self.spec_filter() {
                None => self.spec_data(),
                Some(StreamFilter::Deflate) => zlib_deflate(self.spec_data()),
            },
            r.additional_keys@ == Seq::<(String, Value)>::empty(),
    {
        match self.filter {
            None => Stream::with_bytes(self.data, None),
            Some(StreamFilter::Deflate) => {
                let encoded = zlib_compress(&self.data);
                Stream::with_bytes(encoded, Some(StreamFilter::Deflate))
            },
        }
    }
}

/// A byte payload with an optional filter tag and auxiliary entries.
#[derive(Debug)]
pub struct Stream {
    /// The encoded payload; the rendered length entry equals its length.
    pub bytes: Vec<u8>,
    /// How the payload bytes are to be decoded; `None` means they are not
    /// encoded in any way.
    pub filter: Option<StreamFilter>,
    /// Further entries for the stream's dictionary.
    pub additional_keys: Dictionary,
}

impl Stream {
    /// A stream over already-encoded bytes.
    pub fn with_bytes(bytes: Vec<u8>, filter: Option<StreamFilter>) -> (r: Self)
        ensures
            r.bytes == bytes,
            r.filter == filter,
            r.additional_keys@ == Seq::<(String, Value)>::empty(),
    {
        Stream { bytes, filter, additional_keys: Dictionary::new() }
    }
}

impl PdfFormat for Stream {
    open spec fn rendered(&self) -> Seq<u8> {
        render_stream(*self)
    }

    fn write(&self, f: &mut Formatter) {
        write_stream(self, f);
    }
}

} // verus!
