//! The trailer: the final small dictionary naming the table size, the root
//! catalog, an optional information dictionary, and a best-effort document
//! identity pair, followed by the offset of the cross-reference section.

use vstd::prelude::*;

use crate::document::{DocumentCatalog, DocumentContext, DocumentInfo};
use crate::encode::{dec_digits, push_dec_u64};
use crate::object::{
    arr_close, arr_open, dict_close, dict_open, key_value_bytes, name_bytes, ref_bytes, Formatter,
    IndirectReference, PdfFormat, RawIndirectReference, LANGLE, LBRACKET, NL, RANGLE, RBRACKET,
    SPACE,
};
use crate::pagetree::spec_opt_raw;

verus! {

/// A string rendered between angle brackets, used for the identity pair.
#[derive(Debug, Clone)]
pub struct HexString(pub String);

/// The rendering of a hex string: `<`, the text's bytes, `>`.
pub open spec fn hex_string_bytes(s: Seq<char>) -> Seq<u8> {
    seq![LANGLE] + vstd::utf8::encode_utf8(s) + seq![RANGLE]
}

impl PdfFormat for HexString {
    open spec fn rendered(&self) -> Seq<u8> {
        hex_string_bytes(self.0@)
    }

    fn write(&self, f: &mut Formatter) {
        f.byte(LANGLE);
        f.bytes(self.0.as_str().as_bytes());
        f.byte(RANGLE);
        assert(f@ =~= old(f)@ + hex_string_bytes(self.0@));
    }
}

/// A lowercase hexadecimal digit.
pub open spec fn is_hex_char(c: char) -> bool {
    (48 <= c as u32 <= 57) || (97 <= c as u32 <= 102)
}

/// A well-formed document identity: 32 lowercase hexadecimal characters.
pub open spec fn is_hex_id(id: Seq<char>) -> bool {
    id.len() == 32 && forall|i: int| 0 <= i < id.len() ==> is_hex_char(#[trigger] id[i])
}

/// The hexadecimal digest that the MD5 function yields for the two inputs
/// in sequence: 32 lowercase hexadecimal characters, a function of the
/// inputs alone.
pub uninterp spec fn md5_hex(a: Seq<char>, b: Seq<char>) -> Seq<char>;

/// Relies on crypto's `Md5` through the `Digest` trait (`new`, `input_str`,
/// `result_str`): the result is the 128-bit MD5 digest of the concatenated
/// input, printed as 32 lowercase hexadecimal characters, and depends on
/// the input alone.
#[verifier::external_body]
fn md5_hex_string(a: &str, b: &str) -> (r: String)
    ensures
        r@ == md5_hex(a@, b@),
        is_hex_id(r@),
{
    let mut m = crypto::md5::Md5::new();
    crypto::digest::Digest::input_str(&mut m, a);
    crypto::digest::Digest::input_str(&mut m, b);
    crypto::digest::Digest::result_str(&mut m)
}

/// Relies on `std::time::SystemTime::now` for a changing seed. Nothing is
/// promised of the result: the identity pair is best-effort, not a security
/// primitive.
#[verifier::external_body]
fn time_seed() -> String {
    format!("{:?}", std::time::SystemTime::now())
}

/// A best-effort document identity: the digest of the current time and the
/// file length so far. Nothing is promised beyond its shape: 32 lowercase
/// hexadecimal characters.
pub fn fresh_document_id(file_len: u64) -> (r: String)
    ensures
        is_hex_id(r@),
{
    let mut digits: Vec<u8> = Vec::new();
    push_dec_u64(&mut digits, file_len);
    proof {
        crate::encode::lemma_dec_digits_ascii(file_len as int);
    }
    let len_text = crate::encode::ascii_string(digits);
    let seed = time_seed();
    md5_hex_string(seed.as_str(), len_text.as_str())
}

/// The identity pair: an array holding the same hex string twice.
pub open spec fn id_array_bytes(id: Seq<char>) -> Seq<u8> {
    arr_open() + hex_string_bytes(id) + seq![SPACE] + hex_string_bytes(id) + seq![SPACE]
        + arr_close()
}

/// The rendering of the whole trailer section: the keyword `trailer`, the
/// dictionary with the table size, the root reference, the optional info
/// reference and the identity pair, then `startxref`, the offset of the
/// cross-reference section, and the end-of-file marker.
pub open spec fn trailer_bytes(
    size: int,
    root: RawIndirectReference,
    info: Option<RawIndirectReference>,
    id: Seq<char>,
    startxref: int,
) -> Seq<u8> {
    seq![116u8, 114, 97, 105, 108, 101, 114, 10] + dict_open() + key_value_bytes(
        name_bytes("Size"@),
        dec_digits(size),
    ) + key_value_bytes(name_bytes("Root"@), ref_bytes(root.0 as int, root.1 as int)) + (
    match info {
        Some(r) => key_value_bytes(name_bytes("Info"@), ref_bytes(r.0 as int, r.1 as int)),
        None => Seq::<u8>::empty(),
    }) + key_value_bytes(name_bytes("ID"@), id_array_bytes(id)) + dict_close() + seq![10u8, 115,
        116, 97, 114, 116, 120, 114, 101, 102, 10] + dec_digits(startxref) + seq![10u8, 37, 37, 69,
        79, 70, 10]
}

/// The final section of a document: the table size, the root catalog, and
/// an optional information dictionary.
pub struct Trailer {
    /// The byte offset at which the cross-reference section begins.
    pub crossref_offset: u32,
    /// The root catalog.
    pub document_catalog: IndirectReference<DocumentCatalog>,
    /// The information dictionary, if one was written.
    pub document_info: Option<IndirectReference<DocumentInfo>>,
}

impl Trailer {
    /// Renders the trailer section at the end of the context's output. The
    /// identity pair is derived from a digest of the current offset and the
    /// time; only its shape is promised.
    #[verifier::rlimit(100)]
    #[verifier::spinoff_prover]
    pub(crate) fn write(&self, context: &mut DocumentContext)
        requires
            old(context).wf(),
        ensures
            final(context).wf(),
            exists|id: Seq<char>|
                is_hex_id(id) && final(context).output.inner@ == old(context).output.inner@
                    + #[trigger] trailer_bytes(
                    old(context).crossref@.len() as int,
                    self.document_catalog.raw,
                    spec_opt_raw(self.document_info),
                    id,
                    self.crossref_offset as int,
                ),
            final(context).crossref == old(context).crossref,
            final(context).version == old(context).version,
            final(context).document_catalog == old(context).document_catalog,
            final(context).page_tree == old(context).page_tree,
            final(context).document_info == old(context).document_info,
    {
        let digest = fresh_document_id(context.output.offset());
        let ghost idv = digest@;
        let mut fmt = Formatter::new();
        fmt.byte(116);
        fmt.byte(114);
        fmt.byte(97);
        fmt.byte(105);
        fmt.byte(108);
        fmt.byte(101);
        fmt.byte(114);
        fmt.byte(10);
        fmt.byte(LANGLE);
        fmt.byte(LANGLE);
        fmt.byte(SPACE);
        fmt.name("Size");
        fmt.byte(SPACE);
        let size = context.crossref.len();
        fmt.dec_u64(size as u64);
        fmt.byte(NL);
        fmt.name("Root");
        fmt.byte(SPACE);
        self.document_catalog.write(&mut fmt);
        fmt.byte(NL);
        assert(fmt@ =~= seq![116u8, 114, 97, 105, 108, 101, 114, 10] + dict_open()
            + key_value_bytes(name_bytes("Size"@), dec_digits(old(context).crossref@.len() as int))
            + key_value_bytes(
            name_bytes("Root"@),
            ref_bytes(self.document_catalog.raw.0 as int, self.document_catalog.raw.1 as int),
        ));
        let ghost g1 = fmt@;
        match &self.document_info {
            Some(r) => {
                fmt.name("Info");
                fmt.byte(SPACE);
                r.write(&mut fmt);
                fmt.byte(NL);
            },
            None => {},
        }
        assert(fmt@ =~= g1 + (match spec_opt_raw(self.document_info) {
            Some(r) => key_value_bytes(name_bytes("Info"@), ref_bytes(r.0 as int, r.1 as int)),
            None => Seq::<u8>::empty(),
        }));
        let ghost g2 = fmt@;
        fmt.name("ID");
        fmt.byte(SPACE);
        fmt.byte(LBRACKET);
        fmt.byte(SPACE);
        let id_string = HexString(digest);
        id_string.write(&mut fmt);
        fmt.byte(SPACE);
        id_string.write(&mut fmt);
        fmt.byte(SPACE);
        fmt.byte(RBRACKET);
        fmt.byte(NL);
        assert(fmt@ =~= g2 + key_value_bytes(name_bytes("ID"@), id_array_bytes(idv)));
        let ghost g3 = fmt@;
        fmt.byte(RANGLE);
        fmt.byte(RANGLE);
        fmt.byte(10);
        fmt.byte(115);
        fmt.byte(116);
        fmt.byte(97);
        fmt.byte(114);
        fmt.byte(116);
        fmt.byte(120);
        fmt.byte(114);
        fmt.byte(101);
        fmt.byte(102);
        fmt.byte(10);
        fmt.dec_u64(self.crossref_offset as u64);
        fmt.byte(10);
        fmt.byte(37);
        fmt.byte(37);
        fmt.byte(69);
        fmt.byte(79);
        fmt.byte(70);
        fmt.byte(10);
        assert(fmt@ =~= g3 + dict_close() + seq![10u8, 115, 116, 97, 114, 116, 120, 114, 101, 102,
            10] + dec_digits(self.crossref_offset as int) + seq![10u8, 37, 37, 69, 79, 70, 10]);
        assert(fmt@ =~= trailer_bytes(
            old(context).crossref@.len() as int,
            self.document_catalog.raw,
            spec_opt_raw(self.document_info),
            idv,
            self.crossref_offset as int,
        ));
        let bytes = fmt.into_bytes();
        context.output.write_all(bytes.as_slice());
        assert(context.output.inner@ =~= old(context).output.inner@ + trailer_bytes(
            old(context).crossref@.len() as int,
            self.document_catalog.raw,
            spec_opt_raw(self.document_info),
            idv,
            self.crossref_offset as int,
        ));
    }
}

} // verus!
