//! The value-formatting protocol: a `Formatter` accumulating output bytes,
//! builders for dictionaries and arrays, the `PdfFormat` trait that every
//! serializable value implements, and the generic value types.

use vstd::prelude::*;

use crate::dictionary::Dictionary;
use crate::encode::{
    dec_digits, dec_padded, dec_signed, esc_full, esc_simple, push_dec_i64, push_dec_padded,
    push_dec_u64, push_esc_full, push_esc_simple, push_real, real_digits, LPAREN, RPAREN,
};
use crate::stream::Stream;

verus! {

/// ASCII `<`.
pub const LANGLE: u8 = 60;

/// ASCII `>`.
pub const RANGLE: u8 = 62;

/// ASCII `[`.
pub const LBRACKET: u8 = 91;

/// ASCII `]`.
pub const RBRACKET: u8 = 93;

/// ASCII space.
pub const SPACE: u8 = 32;

/// ASCII line feed.
pub const NL: u8 = 10;

/// ASCII `/`.
pub const SLASH: u8 = 47;

/// The bytes of `<< `, opening a dictionary.
pub open spec fn dict_open() -> Seq<u8> {
    seq![LANGLE, LANGLE, SPACE]
}

/// The bytes of `>>`, closing a dictionary.
pub open spec fn dict_close() -> Seq<u8> {
    seq![RANGLE, RANGLE]
}

/// The bytes of `[ `, opening an array.
pub open spec fn arr_open() -> Seq<u8> {
    seq![LBRACKET, SPACE]
}

/// The bytes of `]`, closing an array.
pub open spec fn arr_close() -> Seq<u8> {
    seq![RBRACKET]
}

/// The bytes of the literal `true`.
pub open spec fn kw_true() -> Seq<u8> {
    seq![116, 114, 117, 101]
}

/// The bytes of the literal `false`.
pub open spec fn kw_false() -> Seq<u8> {
    seq![102, 97, 108, 115, 101]
}

/// The bytes of the literal `null`.
pub open spec fn kw_null() -> Seq<u8> {
    seq![110, 117, 108, 108]
}

/// A name token: a forward slash followed by the UTF-8 bytes of the text.
/// No escaping is performed; the caller must supply safe characters.
pub open spec fn name_bytes(cs: Seq<char>) -> Seq<u8> {
    seq![SLASH] + vstd::utf8::encode_utf8(cs)
}

/// A parenthesized string literal under the basic escaping.
pub open spec fn str_lit_simple(s: Seq<u8>) -> Seq<u8> {
    seq![LPAREN] + esc_simple(s) + seq![RPAREN]
}

/// A parenthesized string literal under the fuller escaping.
pub open spec fn str_lit_full(s: Seq<u8>) -> Seq<u8> {
    seq![LPAREN] + esc_full(s) + seq![RPAREN]
}

/// An indirect reference token: `<number> <generation> R`.
pub open spec fn ref_bytes(number: int, generation: int) -> Seq<u8> {
    dec_signed(number) + seq![SPACE] + dec_signed(generation) + seq![SPACE, 82]
}

/// Accumulates the rendering of one object as a byte sequence.
#[derive(Debug)]
pub struct Formatter {
    out: Vec<u8>,
}

impl View for Formatter {
    type V = Seq<u8>;

    closed spec fn view(&self) -> Seq<u8> {
        self.out@
    }
}

impl Formatter {
    /// An empty formatter.
    pub fn new() -> (r: Self)
        ensures
            r@ == Seq::<u8>::empty(),
    {
        let out: Vec<u8> = Vec::new();
        assert(out@ =~= Seq::<u8>::empty());
        Formatter { out }
    }

    /// Hands back the accumulated bytes.
    pub fn into_bytes(self) -> (r: Vec<u8>)
        ensures
            r@ == self@,
    {
        self.out
    }

    /// Appends one byte.
    pub fn byte(&mut self, b: u8)
        ensures
            final(self)@ == old(self)@.push(b),
    {
        self.out.push(b);
    }

    /// Appends a slice of bytes.
    pub fn bytes(&mut self, s: &[u8])
        ensures
            final(self)@ == old(self)@ + s@,
    {
        let mut i: usize = 0;
        assert(self@ =~= old(self)@ + s@.take(0));
        while i < s.len()
            invariant
                self@ == old(self)@ + s@.take(i as int),
                i <= s@.len(),
            decreases s@.len() - i,
        {
            self.out.push(s[i]);
            assert(self@ =~= old(self)@ + s@.take(i + 1));
            i = i + 1;
        }
        assert(s@.take(s@.len() as int) =~= s@);
    }

    /// Appends the bytes of a whole vector.
    pub fn byte_vec(&mut self, s: &Vec<u8>)
        ensures
            final(self)@ == old(self)@ + s@,
    {
        self.bytes(s.as_slice());
    }

    /// Appends the decimal numeral of `n`.
    pub fn dec_u64(&mut self, n: u64)
        ensures
            final(self)@ == old(self)@ + dec_digits(n as int),
    {
        push_dec_u64(&mut self.out, n);
    }

    /// Appends the decimal numeral of a signed integer.
    pub fn dec_i64(&mut self, n: i64)
        ensures
            final(self)@ == old(self)@ + dec_signed(n as int),
    {
        push_dec_i64(&mut self.out, n);
    }

    /// Appends the decimal numeral of `n`, zero-padded to at least `w` digits.
    pub fn dec_padded(&mut self, n: u64, w: usize)
        ensures
            final(self)@ == old(self)@ + dec_padded(n as int, w as int),
    {
        push_dec_padded(&mut self.out, n, w);
    }

    /// Appends the two-decimal-place form of `h` hundredths.
    pub fn real_num(&mut self, h: i64)
        ensures
            final(self)@ == old(self)@ + real_digits(h as int),
    {
        push_real(&mut self.out, h);
    }

    /// Appends a name token for the given text.
    pub fn name(&mut self, s: &str)
        ensures
            final(self)@ == old(self)@ + name_bytes(s@),
    {
        self.out.push(SLASH);
        self.bytes(s.as_bytes());
        assert(self@ =~= old(self)@ + name_bytes(s@));
    }

    /// Appends a string literal under the basic escaping.
    pub fn string_simple(&mut self, s: &[u8])
        ensures
            final(self)@ == old(self)@ + str_lit_simple(s@),
    {
        self.out.push(LPAREN);
        push_esc_simple(&mut self.out, s);
        self.out.push(RPAREN);
        assert(self@ =~= old(self)@ + str_lit_simple(s@));
    }

    /// Appends a string literal under the fuller escaping.
    pub fn string_full(&mut self, s: &[u8])
        ensures
            final(self)@ == old(self)@ + str_lit_full(s@),
    {
        self.out.push(LPAREN);
        push_esc_full(&mut self.out, s);
        self.out.push(RPAREN);
        assert(self@ =~= old(self)@ + str_lit_full(s@));
    }

    /// Appends bytes escaped by the fuller variant, without parentheses.
    pub fn escaped_full(&mut self, s: &[u8])
        ensures
            final(self)@ == old(self)@ + esc_full(s@),
    {
        push_esc_full(&mut self.out, s);
    }

    /// Appends one `/Key value` dictionary line.
    pub fn kv_line<V: PdfFormat>(&mut self, key: &str, value: &V)
        ensures
            final(self)@ == old(self)@ + key_value_bytes(name_bytes(key@), value.rendered()),
    {
        self.name(key);
        self.byte(SPACE);
        value.write(self);
        self.byte(NL);
        assert(self@ =~= old(self)@ + key_value_bytes(name_bytes(key@), value.rendered()));
    }

    /// Appends one `/Key /Name` dictionary line.
    pub fn kv_name(&mut self, key: &str, value: &str)
        ensures
            final(self)@ == old(self)@ + key_value_bytes(name_bytes(key@), name_bytes(value@)),
    {
        self.name(key);
        self.byte(SPACE);
        self.name(value);
        self.byte(NL);
        assert(self@ =~= old(self)@ + key_value_bytes(name_bytes(key@), name_bytes(value@)));
    }

    /// Opens a dictionary builder over this formatter.
    pub fn format_dictionary(self) -> (r: DictionaryFormatter)
        ensures
            r@ == self@ + dict_open(),
    {
        let mut f = self;
        f.byte(LANGLE);
        f.byte(LANGLE);
        f.byte(SPACE);
        assert(f@ =~= self@ + dict_open());
        DictionaryFormatter { formatter: f }
    }

    /// Opens an array builder over this formatter.
    pub fn format_array(self) -> (r: ArrayFormatter)
        ensures
            r@ == self@ + arr_open(),
    {
        let mut f = self;
        f.byte(LBRACKET);
        f.byte(SPACE);
        assert(f@ =~= self@ + arr_open());
        ArrayFormatter { formatter: f }
    }
}

/// One `/Key value` line of a dictionary.
pub open spec fn key_value_bytes(key: Seq<u8>, value: Seq<u8>) -> Seq<u8> {
    key + seq![SPACE] + value + seq![NL]
}

/// Builds a dictionary by chained `key_value` calls, then `finish`.
#[derive(Debug)]
#[must_use]
pub struct DictionaryFormatter {
    formatter: Formatter,
}

impl View for DictionaryFormatter {
    type V = Seq<u8>;

    closed spec fn view(&self) -> Seq<u8> {
        self.formatter@
    }
}

impl DictionaryFormatter {
    /// Appends one `/Key value` line.
    pub fn key_value<K: PdfFormat, V: PdfFormat>(self, key: &K, value: &V) -> (r: Self)
        ensures
            r@ == self@ + key_value_bytes(key.rendered(), value.rendered()),
    {
        let mut f = self.formatter;
        key.write(&mut f);
        f.byte(SPACE);
        value.write(&mut f);
        f.byte(NL);
        assert(f@ =~= self@ + key_value_bytes(key.rendered(), value.rendered()));
        DictionaryFormatter { formatter: f }
    }

    /// Closes the dictionary and hands the formatter back.
    pub fn finish(self) -> (r: Formatter)
        ensures
            r@ == self@ + dict_close(),
    {
        let mut f = self.formatter;
        f.byte(RANGLE);
        f.byte(RANGLE);
        assert(f@ =~= self@ + dict_close());
        f
    }
}

/// Builds an array by chained `value` calls, then `finish`.
#[derive(Debug)]
#[must_use]
pub struct ArrayFormatter {
    formatter: Formatter,
}

impl View for ArrayFormatter {
    type V = Seq<u8>;

    closed spec fn view(&self) -> Seq<u8> {
        self.formatter@
    }
}

impl ArrayFormatter {
    /// Appends one element and a trailing space.
    pub fn value<V: PdfFormat>(self, value: &V) -> (r: Self)
        ensures
            r@ == self@ + value.rendered() + seq![SPACE],
    {
        let mut f = self.formatter;
        value.write(&mut f);
        f.byte(SPACE);
        ArrayFormatter { formatter: f }
    }

    /// Closes the array and hands the formatter back.
    pub fn finish(self) -> (r: Formatter)
        ensures
            r@ == self@ + arr_close(),
    {
        let mut f = self.formatter;
        f.byte(RBRACKET);
        assert(f@ =~= self@ + arr_close());
        f
    }
}

/// A value that can render itself into the file format's byte syntax.
/// `rendered` is the mathematical byte sequence; `write` produces exactly it.
pub trait PdfFormat {
    /// The exact bytes this value renders to.
    spec fn rendered(&self) -> Seq<u8>;

    /// Appends the rendering of this value to the formatter.
    fn write(&self, f: &mut Formatter)
        ensures
            final(f)@ == old(f)@ + self.rendered(),
    ;
}

impl PdfFormat for bool {
    open spec fn rendered(&self) -> Seq<u8> {
        if *self {
            kw_true()
        } else {
            kw_false()
        }
    }

    fn write(&self, f: &mut Formatter) {
        if *self {
            f.byte(116);
            f.byte(114);
            f.byte(117);
            f.byte(101);
            assert(f@ =~= old(f)@ + self.rendered());
        } else {
            f.byte(102);
            f.byte(97);
            f.byte(108);
            f.byte(115);
            f.byte(101);
            assert(f@ =~= old(f)@ + self.rendered());
        }
    }
}

impl PdfFormat for i64 {
    open spec fn rendered(&self) -> Seq<u8> {
        dec_signed(*self as int)
    }

    fn write(&self, f: &mut Formatter) {
        f.dec_i64(*self);
    }
}

impl PdfFormat for u32 {
    open spec fn rendered(&self) -> Seq<u8> {
        dec_digits(*self as int)
    }

    fn write(&self, f: &mut Formatter) {
        f.dec_u64(*self as u64);
    }
}

impl PdfFormat for usize {
    open spec fn rendered(&self) -> Seq<u8> {
        dec_digits(*self as int)
    }

    fn write(&self, f: &mut Formatter) {
        f.dec_u64(*self as u64);
    }
}

impl PdfFormat for String {
    open spec fn rendered(&self) -> Seq<u8> {
        name_bytes(self@)
    }

    fn write(&self, f: &mut Formatter) {
        f.name(self.as_str());
    }
}

impl PdfFormat for Vec<u8> {
    open spec fn rendered(&self) -> Seq<u8> {
        str_lit_simple(self@)
    }

    fn write(&self, f: &mut Formatter) {
        f.string_simple(self.as_slice());
    }
}

impl<T: PdfFormat> PdfFormat for Option<T> {
    open spec fn rendered(&self) -> Seq<u8> {
        match self {
            Some(v) => v.rendered(),
            None => kw_null(),
        }
    }

    fn write(&self, f: &mut Formatter) {
        match self {
            Some(v) => v.write(f),
            None => {
                f.byte(110);
                f.byte(117);
                f.byte(108);
                f.byte(108);
                assert(f@ =~= old(f)@ + kw_null());
            },
        }
    }
}

/// A fixed-precision real number held as a count of hundredths; it renders
/// with exactly two decimal digits regardless of magnitude.
#[derive(Debug, Copy, Clone, PartialEq, Eq, Structural)]
pub struct Real {
    /// One hundred times the represented value.
    pub hundredths: i64,
}

impl Real {
    /// The real number `n`.
    pub fn from_int(n: i64) -> (r: Self)
        requires
            -92233720368547758 <= n <= 92233720368547758,
        ensures
            r.hundredths == 100 * n,
    {
        Real { hundredths: n * 100 }
    }

    /// The real number `h / 100`.
    pub fn from_hundredths(h: i64) -> (r: Self)
        ensures
            r.hundredths == h,
    {
        Real { hundredths: h }
    }
}

impl PdfFormat for Real {
    open spec fn rendered(&self) -> Seq<u8> {
        real_digits(self.hundredths as int)
    }

    fn write(&self, f: &mut Formatter) {
        f.real_num(self.hundredths);
    }
}

/// The identity pair of an indirect object, without the pointed-to type.
#[derive(Debug, Copy, Clone, PartialEq, Eq, Structural)]
pub struct RawIndirectReference(pub i64, pub i64);

/// A typed reference to an indirect object, obtained from `write_object`,
/// `write_object_fn` or `reserve` on the document context.
#[derive(Debug)]
pub struct IndirectReference<T> {
    /// The identity pair.
    pub raw: RawIndirectReference,
    /// Carries the pointed-to type.
    pub _marker: core::marker::PhantomData<T>,
}

impl<T> IndirectReference<T> {
    /// A reference with the given identity pair.
    pub(crate) fn new(number: i64, generation: i64) -> (r: Self)
        ensures
            r.raw == RawIndirectReference(number, generation),
    {
        IndirectReference { raw: RawIndirectReference(number, generation), _marker: core::marker::PhantomData }
    }

    /// The object number.
    pub fn number(&self) -> (r: i64)
        ensures
            r == self.raw.0,
    {
        self.raw.0
    }

    /// The generation number.
    pub fn generation(&self) -> (r: i64)
        ensures
            r == self.raw.1,
    {
        self.raw.1
    }

    /// Converts the reference to point to an object of type `U`.
    /// To be used with care, else invalid documents may be created.
    pub fn convert<U>(self) -> (r: IndirectReference<U>)
        ensures
            r.raw == self.raw,
    {
        IndirectReference { raw: self.raw, _marker: core::marker::PhantomData }
    }

    /// The untyped identity pair.
    pub fn raw(self) -> (r: RawIndirectReference)
        ensures
            r == self.raw,
    {
        self.raw
    }

    /// The untyped identity pair, in specifications.
    pub open spec fn spec_raw(self) -> RawIndirectReference {
        self.raw
    }
}

impl<T> Copy for IndirectReference<T> {

}

impl<T> Clone for IndirectReference<T> {
    fn clone(&self) -> (r: Self)
        ensures
            r == *self,
    {
        *self
    }
}

impl<T> PartialEq for IndirectReference<T> {
    fn eq(&self, other: &Self) -> (r: bool)
        ensures
            r == (self.raw == other.raw),
    {
        self.raw.0 == other.raw.0 && self.raw.1 == other.raw.1
    }
}

impl<T> Eq for IndirectReference<T> {

}

impl<T> vstd::std_specs::cmp::PartialEqSpecImpl for IndirectReference<T> {
    open spec fn obeys_eq_spec() -> bool {
        true
    }

    open spec fn eq_spec(&self, other: &Self) -> bool {
        self.raw == other.raw
    }
}

impl<T> Default for IndirectReference<T> {
    fn default() -> (r: Self)
        ensures
            r.spec_raw() == RawIndirectReference(0, 0),
    {
        IndirectReference::new(0, 0)
    }
}

impl<T> PdfFormat for IndirectReference<T> {
    open spec fn rendered(&self) -> Seq<u8> {
        ref_bytes(self.raw.0 as int, self.raw.1 as int)
    }

    fn write(&self, f: &mut Formatter) {
        f.dec_i64(self.raw.0);
        f.byte(SPACE);
        f.dec_i64(self.raw.1);
        f.byte(SPACE);
        f.byte(82);
        assert(f@ =~= old(f)@ + self.rendered());
    }
}

/// A value that is either embedded inline or written elsewhere and referenced.
#[derive(Debug, Clone, PartialEq)]
pub enum Object<T> {
    /// The value embedded in place.
    Direct(T),
    /// A reference to the value written as its own indirect object.
    Indirect(IndirectReference<T>),
}

impl<T> From<IndirectReference<T>> for Object<T> {
    fn from(reference: IndirectReference<T>) -> (r: Self)
        ensures
            r == Object::Indirect(reference),
    {
        Object::Indirect(reference)
    }
}

impl<T> vstd::std_specs::convert::FromSpecImpl<IndirectReference<T>> for Object<T> {
    open spec fn obeys_from_spec() -> bool {
        true
    }

    open spec fn from_spec(reference: IndirectReference<T>) -> Self {
        Object::Indirect(reference)
    }
}

impl<T: PdfFormat> PdfFormat for Object<T> {
    open spec fn rendered(&self) -> Seq<u8> {
        match self {
            Object::Direct(v) => v.rendered(),
            Object::Indirect(r) => r.rendered(),
        }
    }

    fn write(&self, f: &mut Formatter) {
        match self {
            Object::Direct(v) => v.write(f),
            Object::Indirect(r) => r.write(f),
        }
    }
}

/// The renderings of typed array elements, each followed by a space.
pub open spec fn render_elems<T: PdfFormat>(s: Seq<T>) -> Seq<u8>
    decreases s,
{
    if s.len() == 0 {
        Seq::empty()
    } else {
        s[0].rendered() + seq![SPACE] + render_elems(s.drop_first())
    }
}

/// Appending an element extends the rendering by that element and a space.
pub proof fn lemma_render_elems_snoc<T: PdfFormat>(s: Seq<T>, x: T)
    ensures
        render_elems(s.push(x)) == render_elems(s) + x.rendered() + seq![SPACE],
    decreases s.len(),
{
    if s.len() == 0 {
        assert(s.push(x).drop_first() =~= s);
        assert(render_elems(s.push(x)) =~= render_elems(s) + x.rendered() + seq![SPACE]);
    } else {
        assert(s.push(x).drop_first() =~= s.drop_first().push(x));
        lemma_render_elems_snoc(s.drop_first(), x);
        assert(render_elems(s.push(x)) =~= render_elems(s) + x.rendered() + seq![SPACE]);
    }
}

/// Appends a typed array rendering: `[ e1 e2 ... ]`.
pub fn write_array_of<T: PdfFormat>(v: &Vec<T>, f: &mut Formatter)
    ensures
        final(f)@ == old(f)@ + arr_open() + render_elems(v@) + arr_close(),
{
    f.byte(LBRACKET);
    f.byte(SPACE);
    let ghost base = f@;
    assert(f@ =~= base + render_elems(v@.take(0)));
    let mut i: usize = 0;
    while i < v.len()
        invariant
            f@ == base + render_elems(v@.take(i as int)),
            i <= v@.len(),
        decreases v@.len() - i,
    {
        v[i].write(f);
        f.byte(SPACE);
        proof {
            lemma_render_elems_snoc(v@.take(i as int), v@[i as int]);
            assert(v@.take(i + 1) =~= v@.take(i as int).push(v@[i as int]));
            assert(f@ =~= base + render_elems(v@.take(i + 1)));
        }
        i = i + 1;
    }
    assert(v@.take(v@.len() as int) =~= v@);
    f.byte(RBRACKET);
    assert(f@ =~= old(f)@ + arr_open() + render_elems(v@) + arr_close());
}

/// A `/Key value` line that is omitted when the value is absent.
pub open spec fn opt_kv_bytes<V: PdfFormat>(key: Seq<char>, v: Option<V>) -> Seq<u8> {
    match v {
        Some(x) => key_value_bytes(name_bytes(key), x.rendered()),
        None => Seq::<u8>::empty(),
    }
}

/// Appends a `/Key value` line when the value is present, and nothing
/// otherwise.
pub fn write_opt_kv<V: PdfFormat>(f: &mut Formatter, key: &str, v: &Option<V>)
    ensures
        final(f)@ == old(f)@ + opt_kv_bytes(key@, *v),
{
    match v {
        Some(x) => {
            f.kv_line(key, x);
        },
        None => {
            assert(f@ =~= old(f)@ + opt_kv_bytes(key@, *v));
        },
    }
}

/// The dynamically tagged union of the format's leaf values.
#[derive(Debug)]
pub enum Value {
    /// The absent value, rendered `null`.
    Null,
    /// A boolean, rendered `true` or `false`.
    Boolean(bool),
    /// An integer, rendered in decimal.
    Integer(i64),
    /// A fixed-precision real, rendered with two decimal digits.
    Real(Real),
    /// A byte string, rendered as a parenthesized literal.
    String(Vec<u8>),
    /// A name token, rendered with a leading forward slash.
    Name(String),
    /// A sequence of values.
    Array(Vec<Value>),
    /// A key-ordered mapping.
    Dictionary(Dictionary),
    /// A byte payload with its dictionary.
    Stream(Stream),
    /// A reference to a value written elsewhere, rendered
    /// `<number> <generation> R`.
    Reference(RawIndirectReference),
}

/// The bytes of the keyword `stream`.
pub open spec fn kw_stream() -> Seq<u8> {
    seq![115, 116, 114, 101, 97, 109]
}

/// The bytes of the keyword `endstream`.
pub open spec fn kw_endstream() -> Seq<u8> {
    seq![101, 110, 100, 115, 116, 114, 101, 97, 109]
}

/// The rendering of a generic value.
pub open spec fn render_value(v: Value) -> Seq<u8>
    decreases v, 0int,
{
    match v {
        Value::Null => kw_null(),
        Value::Boolean(b) => if b {
            kw_true()
        } else {
            kw_false()
        },
        Value::Integer(i) => dec_signed(i as int),
        Value::Real(r) => real_digits(r.hundredths as int),
        Value::String(s) => str_lit_simple(s@),
        Value::Name(n) => name_bytes(n@),
        Value::Array(a) => arr_open() + render_items(a@) + arr_close(),
        Value::Dictionary(d) => dict_open() + render_entries(d.entries@) + dict_close(),
        Value::Stream(st) => render_stream(st),
        Value::Reference(r) => ref_bytes(r.0 as int, r.1 as int),
    }
}

/// The renderings of array elements, each followed by a space.
pub open spec fn render_items(s: Seq<Value>) -> Seq<u8>
    decreases s, 0int,
{
    if s.len() == 0 {
        Seq::empty()
    } else {
        render_value(s[0]) + seq![SPACE] + render_items(s.drop_first())
    }
}

/// The `/Key value` lines of dictionary entries, in order.
pub open spec fn render_entries(s: Seq<(String, Value)>) -> Seq<u8>
    decreases s, 0int,
{
    if s.len() == 0 {
        Seq::empty()
    } else {
        key_value_bytes(name_bytes(s[0].0@), render_value(s[0].1)) + render_entries(s.drop_first())
    }
}

/// The rendering of a stream with the given filter tag, payload and
/// auxiliary entries: its dictionary — an optional filter entry, the
/// mandatory length entry equal to the payload length, and the auxiliary
/// entries — then the payload between the `stream` and `endstream` keywords.
pub open spec fn stream_bytes(
    filter: Option<crate::stream::StreamFilter>,
    payload: Seq<u8>,
    extra: Seq<(String, Value)>,
) -> Seq<u8>
    decreases extra, 1int,
{
    dict_open() + (match filter {
        Some(fl) => key_value_bytes(name_bytes("Filter"@), name_bytes("FlateDecode"@)),
        None => Seq::<u8>::empty(),
    }) + key_value_bytes(name_bytes("Length"@), dec_digits(payload.len() as int)) + render_entries(
        extra,
    ) + dict_close() + seq![NL] + kw_stream() + seq![NL] + payload + seq![NL] + kw_endstream()
}

/// A stream's dictionary always carries a length entry equal to the length
/// of the payload standing between the `stream` and `endstream` keywords,
/// whatever the filter and the auxiliary entries.
pub proof fn lemma_stream_length_is_payload_length(
    filter: Option<crate::stream::StreamFilter>,
    payload: Seq<u8>,
    extra: Seq<(String, Value)>,
)
    ensures
        stream_bytes(filter, payload, extra) == dict_open() + (match filter {
            Some(fl) => key_value_bytes(name_bytes("Filter"@), name_bytes("FlateDecode"@)),
            None => Seq::<u8>::empty(),
        }) + key_value_bytes(name_bytes("Length"@), dec_digits(payload.len() as int))
            + render_entries(extra) + dict_close() + seq![NL] + kw_stream() + seq![NL] + payload
            + seq![NL] + kw_endstream(),
{
}

/// The rendering of a stream value.
pub open spec fn render_stream(st: Stream) -> Seq<u8>
    decreases st, 0int,
{
    stream_bytes(st.filter, st.bytes@, st.additional_keys.entries@)
}

/// An empty sequence value renders as `[ ]`, whatever else the value holds.
pub proof fn lemma_empty_array_rendering(v: Value)
    requires
        v matches Value::Array(a) && a@.len() == 0,
    ensures
        render_value(v) == seq![LBRACKET, SPACE, RBRACKET],
{
    assert(render_value(v) =~= seq![LBRACKET, SPACE, RBRACKET]);
}

/// Appending an element extends the rendering by that element and a space.
pub proof fn lemma_render_items_snoc(s: Seq<Value>, v: Value)
    ensures
        render_items(s.push(v)) == render_items(s) + render_value(v) + seq![SPACE],
    decreases s.len(),
{
    if s.len() == 0 {
        assert(s.push(v).drop_first() =~= s);
        assert(render_items(s.push(v)) =~= render_items(s) + render_value(v) + seq![SPACE]);
    } else {
        assert(s.push(v).drop_first() =~= s.drop_first().push(v));
        lemma_render_items_snoc(s.drop_first(), v);
        assert(render_items(s.push(v)) =~= render_items(s) + render_value(v) + seq![SPACE]);
    }
}

/// Appending an entry extends the rendering by that entry's line.
pub proof fn lemma_render_entries_snoc(s: Seq<(String, Value)>, e: (String, Value))
    ensures
        render_entries(s.push(e)) == render_entries(s) + key_value_bytes(
            name_bytes(e.0@),
            render_value(e.1),
        ),
    decreases s.len(),
{
    if s.len() == 0 {
        assert(s.push(e).drop_first() =~= s);
        assert(render_entries(s.push(e)) =~= render_entries(s) + key_value_bytes(
            name_bytes(e.0@),
            render_value(e.1),
        ));
    } else {
        assert(s.push(e).drop_first() =~= s.drop_first().push(e));
        lemma_render_entries_snoc(s.drop_first(), e);
        assert(render_entries(s.push(e)) =~= render_entries(s) + key_value_bytes(
            name_bytes(e.0@),
            render_value(e.1),
        ));
    }
}

/// Appends the rendering of a generic value.
pub fn write_value(v: &Value, f: &mut Formatter)
    ensures
        final(f)@ == old(f)@ + render_value(*v),
    decreases *v,
{
    match v {
        Value::Null => {
            f.byte(110);
            f.byte(117);
            f.byte(108);
            f.byte(108);
            assert(f@ =~= old(f)@ + render_value(*v));
        },
        Value::Boolean(b) => {
            b.write(f);
        },
        Value::Integer(i) => {
            f.dec_i64(*i);
        },
        Value::Real(r) => {
            f.real_num(r.hundredths);
        },
        Value::String(s) => {
            f.string_simple(s.as_slice());
        },
        Value::Name(n) => {
            f.name(n.as_str());
        },
        Value::Array(a) => {
            f.byte(LBRACKET);
            f.byte(SPACE);
            let ghost base = old(f)@ + arr_open();
            assert(f@ =~= base + render_items(a@.take(0)));
            let mut i: usize = 0;
            while i < a.len()
                invariant
                    f@ == base + render_items(a@.take(i as int)),
                    i <= a@.len(),
                    *v == Value::Array(*a),
                decreases a@.len() - i,
            {
                proof {
                    assert(decreases_to!(*v => v->Array_0));
                    assert(decreases_to!(*a => a@));
                    assert(decreases_to!(a@ => a@[i as int]));
                }
                write_value(&a[i], f);
                f.byte(SPACE);
                proof {
                    lemma_render_items_snoc(a@.take(i as int), a@[i as int]);
                    assert(a@.take(i + 1) =~= a@.take(i as int).push(a@[i as int]));
                    assert(f@ =~= base + render_items(a@.take(i + 1)));
                }
                i = i + 1;
            }
            f.byte(RBRACKET);
            assert(a@.take(a@.len() as int) =~= a@);
            assert(f@ =~= old(f)@ + render_value(*v));
        },
        Value::Dictionary(d) => {
            f.byte(LANGLE);
            f.byte(LANGLE);
            f.byte(SPACE);
            proof {
                assert(decreases_to!(*v => v->Dictionary_0));
                assert(decreases_to!(*d => d.entries));
                assert(decreases_to!(d.entries => d.entries@));
            }
            write_entries(&d.entries, f);
            f.byte(RANGLE);
            f.byte(RANGLE);
            assert(f@ =~= old(f)@ + render_value(*v));
        },
        Value::Stream(st) => {
            proof {
                assert(decreases_to!(*v => v->Stream_0));
            }
            write_stream(st, f);
        },
        Value::Reference(r) => {
            f.dec_i64(r.0);
            f.byte(SPACE);
            f.dec_i64(r.1);
            f.byte(SPACE);
            f.byte(82);
            assert(f@ =~= old(f)@ + render_value(*v));
        },
    }
}

/// Appends the `/Key value` lines of the given entries.
pub fn write_entries(entries: &Vec<(String, Value)>, f: &mut Formatter)
    ensures
        final(f)@ == old(f)@ + render_entries(entries@),
    decreases entries@,
{
    let mut i: usize = 0;
    assert(f@ =~= old(f)@ + render_entries(entries@.take(0)));
    while i < entries.len()
        invariant
            f@ == old(f)@ + render_entries(entries@.take(i as int)),
            i <= entries@.len(),
        decreases entries@.len() - i,
    {
        let e = &entries[i];
        f.name(e.0.as_str());
        f.byte(SPACE);
        proof {
            assert(decreases_to!(entries@ => entries@[i as int]));
            assert(decreases_to!(entries@[i as int] => entries@[i as int].1));
        }
        write_value(&e.1, f);
        f.byte(NL);
        proof {
            lemma_render_entries_snoc(entries@.take(i as int), entries@[i as int]);
            assert(entries@.take(i + 1) =~= entries@.take(i as int).push(entries@[i as int]));
            assert(f@ =~= old(f)@ + render_entries(entries@.take(i + 1)));
        }
        i = i + 1;
    }
    assert(entries@.take(entries@.len() as int) =~= entries@);
}

/// Appends the rendering of a stream.
#[verifier::rlimit(60)]
pub fn write_stream(st: &Stream, f: &mut Formatter)
    ensures
        final(f)@ == old(f)@ + render_stream(*st),
    decreases *st,
{
    f.byte(LANGLE);
    f.byte(LANGLE);
    f.byte(SPACE);
    match &st.filter {
        Some(fl) => {
            f.name("Filter");
            f.byte(SPACE);
            f.name("FlateDecode");
            f.byte(NL);
        },
        None => {},
    }
    f.name("Length");
    f.byte(SPACE);
    f.dec_u64(st.bytes.len() as u64);
    f.byte(NL);
    proof {
        assert(decreases_to!(*st => st.additional_keys));
        assert(decreases_to!(st.additional_keys => st.additional_keys.entries));
        assert(decreases_to!(st.additional_keys.entries => st.additional_keys.entries@));
    }
    write_entries(&st.additional_keys.entries, f);
    f.byte(RANGLE);
    f.byte(RANGLE);
    f.byte(NL);
    f.byte(115);
    f.byte(116);
    f.byte(114);
    f.byte(101);
    f.byte(97);
    f.byte(109);
    f.byte(NL);
    f.byte_vec(&st.bytes);
    f.byte(NL);
    f.byte(101);
    f.byte(110);
    f.byte(100);
    f.byte(115);
    f.byte(116);
    f.byte(114);
    f.byte(101);
    f.byte(97);
    f.byte(109);
    assert(f@ =~= old(f)@ + render_stream(*st));
}

/// Appends the rendering of a dictionary.
pub fn write_dictionary(d: &Dictionary, f: &mut Formatter)
    ensures
        final(f)@ == old(f)@ + dict_open() + render_entries(d.entries@) + dict_close(),
{
    f.byte(LANGLE);
    f.byte(LANGLE);
    f.byte(SPACE);
    write_entries(&d.entries, f);
    f.byte(RANGLE);
    f.byte(RANGLE);
    assert(f@ =~= old(f)@ + dict_open() + render_entries(d.entries@) + dict_close());
}

impl PdfFormat for Value {
    open spec fn rendered(&self) -> Seq<u8> {
        render_value(*self)
    }

    fn write(&self, f: &mut Formatter) {
        write_value(self, f);
    }
}

impl From<Dictionary> for Value {
    fn from(d: Dictionary) -> (r: Value)
        ensures
            r == Value::Dictionary(d),
    {
        Value::Dictionary(d)
    }
}

impl vstd::std_specs::convert::FromSpecImpl<Dictionary> for Value {
    open spec fn obeys_from_spec() -> bool {
        true
    }

    open spec fn from_spec(d: Dictionary) -> Value {
        Value::Dictionary(d)
    }
}

impl From<Stream> for Value {
    fn from(st: Stream) -> (r: Value)
        ensures
            r == Value::Stream(st),
    {
        Value::Stream(st)
    }
}

impl vstd::std_specs::convert::FromSpecImpl<Stream> for Value {
    open spec fn obeys_from_spec() -> bool {
        true
    }

    open spec fn from_spec(st: Stream) -> Value {
        Value::Stream(st)
    }
}

impl From<i64> for Value {
    fn from(i: i64) -> (r: Value)
        ensures
            r == Value::Integer(i),
    {
        Value::Integer(i)
    }
}

impl vstd::std_specs::convert::FromSpecImpl<i64> for Value {
    open spec fn obeys_from_spec() -> bool {
        true
    }

    open spec fn from_spec(i: i64) -> Value {
        Value::Integer(i)
    }
}

impl<T> From<IndirectReference<T>> for Value {
    fn from(r: IndirectReference<T>) -> (v: Value)
        ensures
            v == Value::Reference(r.spec_raw()),
    {
        Value::Reference(r.raw)
    }
}

impl<T> vstd::std_specs::convert::FromSpecImpl<IndirectReference<T>> for Value {
    open spec fn obeys_from_spec() -> bool {
        true
    }

    open spec fn from_spec(r: IndirectReference<T>) -> Value {
        Value::Reference(r.spec_raw())
    }
}

impl From<Real> for Value {
    fn from(r: Real) -> (v: Value)
        ensures
            v == Value::Real(r),
    {
        Value::Real(r)
    }
}

impl vstd::std_specs::convert::FromSpecImpl<Real> for Value {
    open spec fn obeys_from_spec() -> bool {
        true
    }

    open spec fn from_spec(r: Real) -> Value {
        Value::Real(r)
    }
}

} // verus!
