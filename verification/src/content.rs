//! Page content: typographic points and the page-content builder, which
//! collects operator text for one page and attaches it to the page as a
//! content stream.

use vstd::prelude::*;

use crate::dictionary::Dictionary;
use crate::document::{obj_block, DocumentContext};
use crate::encode::{ascii_chars, ascii_string, dec_digits, esc_full, lemma_dec_digits_ascii, push_dec_u64, real_digits};
use crate::font::Font;
use crate::encode::{LPAREN, RPAREN};
use crate::object::{
    name_bytes, Formatter, IndirectReference, Object, PdfFormat, RawIndirectReference, Real,
    Value, SPACE,
};
use crate::pagetree::Page;
use crate::stream::{zlib_deflate, StreamEncoder, StreamFilter};

verus! {

/// A typographic point, held with fixed two-decimal precision.
#[derive(Debug, Copy, Clone, PartialEq, Eq, Structural)]
pub struct Pt(pub Real);

impl PdfFormat for Pt {
    open spec fn rendered(&self) -> Seq<u8> {
        real_digits(self.0.hundredths as int)
    }

    fn write(&self, f: &mut Formatter) {
        f.real_num(self.0.hundredths);
    }
}

impl Pt {
    /// The whole number of points `n`.
    pub fn from_int(n: i64) -> (r: Self)
        requires
            -92233720368547758 <= n <= 92233720368547758,
        ensures
            r.0.hundredths == 100 * n,
    {
        Pt(Real::from_int(n))
    }

    /// `h / 100` points.
    pub fn from_hundredths(h: i64) -> (r: Self)
        ensures
            r.0.hundredths == h,
    {
        Pt(Real::from_hundredths(h))
    }
}

/// A sink that can take byte strings under the fuller escaping.
pub trait WriteEscaped {
    /// The bytes collected so far.
    spec fn sink_bytes(&self) -> Seq<u8>;

    /// Appends `bytes`, escaped by the fuller variant.
    fn write_escaped(&mut self, bytes: &[u8])
        ensures
            final(self).sink_bytes() == old(self).sink_bytes() + esc_full(bytes@),
    ;
}

impl WriteEscaped for Formatter {
    open spec fn sink_bytes(&self) -> Seq<u8> {
        self@
    }

    fn write_escaped(&mut self, bytes: &[u8]) {
        self.escaped_full(bytes);
    }
}

/// The bytes of an operator application: the operator's text and a space.
pub open spec fn op_bytes(op: Seq<char>) -> Seq<u8> {
    vstd::utf8::encode_utf8(op) + seq![SPACE]
}

/// The resource key of the font with the given index: `F` followed by the
/// index in decimal.
pub open spec fn font_key_chars(n: int) -> Seq<char> {
    ascii_chars(seq![70u8] + dec_digits(n))
}

/// The fuller escaping of a run of two-byte big-endian glyph codes.
pub open spec fn cid_glyphs_bytes(glyphs: Seq<u16>) -> Seq<u8>
    decreases glyphs,
{
    if glyphs.len() == 0 {
        Seq::empty()
    } else {
        esc_full(seq![(glyphs[0] / 256) as u8, (glyphs[0] % 256) as u8]) + cid_glyphs_bytes(
            glyphs.drop_first(),
        )
    }
}

/// Appending a glyph appends its escaped big-endian bytes.
pub proof fn lemma_cid_glyphs_snoc(glyphs: Seq<u16>, g: u16)
    ensures
        cid_glyphs_bytes(glyphs.push(g)) == cid_glyphs_bytes(glyphs) + esc_full(
            seq![(g / 256) as u8, (g % 256) as u8],
        ),
    decreases glyphs.len(),
{
    if glyphs.len() == 0 {
        assert(glyphs.push(g).drop_first() =~= glyphs);
        assert(cid_glyphs_bytes(glyphs.push(g)) =~= cid_glyphs_bytes(glyphs) + esc_full(
            seq![(g / 256) as u8, (g % 256) as u8],
        ));
    } else {
        assert(glyphs.push(g).drop_first() =~= glyphs.drop_first().push(g));
        lemma_cid_glyphs_snoc(glyphs.drop_first(), g);
        assert(cid_glyphs_bytes(glyphs.push(g)) =~= cid_glyphs_bytes(glyphs) + esc_full(
            seq![(g / 256) as u8, (g % 256) as u8],
        ));
    }
}

/// Collects the content of one page: the fonts it uses, keyed for its
/// resource dictionary, and the operator text of its content stream.
#[derive(Debug)]
pub struct PageContext {
    /// The fonts used by the page, each with its resource key.
    pub fonts: Vec<(IndirectReference<Font>, String)>,
    /// The operator text collected so far.
    pub content: Formatter,
    /// The compression applied when the content stream is attached.
    pub filter: Option<StreamFilter>,
}

impl PageContext {
    /// An empty builder whose content stream will use the given filter.
    pub fn new(filter: Option<StreamFilter>) -> (r: Self)
        ensures
            r.fonts@ == Seq::<(IndirectReference<Font>, String)>::empty(),
            r.content@ == Seq::<u8>::empty(),
            r.filter == filter,
    {
        let fonts: Vec<(IndirectReference<Font>, String)> = Vec::new();
        assert(fonts@ =~= Seq::<(IndirectReference<Font>, String)>::empty());
        PageContext { fonts, content: Formatter::new(), filter }
    }

    /// Hands out the resource key of the given font: the key of the first
    /// entry already registered for it, or a fresh `F<index>` key at first
    /// use.
    pub fn add_font(&mut self, font: IndirectReference<Font>) -> (r: String)
        ensures
            final(self).content == old(self).content,
            final(self).filter == old(self).filter,
            (if exists|j: int|
                0 <= j < old(self).fonts@.len() && (#[trigger] old(self).fonts@[j]).0.raw
                    == font.raw {
                final(self).fonts == old(self).fonts && exists|j: int|
                    {
                        &&& 0 <= j < old(self).fonts@.len()
                        &&& (#[trigger] old(self).fonts@[j]).0.raw == font.raw
                        &&& forall|i: int|
                            0 <= i < j ==> (#[trigger] old(self).fonts@[i]).0.raw != font.raw
                        &&& r == old(self).fonts@[j].1
                    }
            } else {
                r@ == font_key_chars(old(self).fonts@.len() as int) && final(self).fonts@ == old(
                    self,
                ).fonts@.push((font, r))
            }),
    {
        let mut i: usize = 0;
        while i < self.fonts.len()
            invariant
                i <= self.fonts@.len(),
                forall|j: int| 0 <= j < i ==> self.fonts@[j].0.raw != font.raw,
            decreases self.fonts@.len() - i,
        {
            if self.fonts[i].0 == font {
                return self.fonts[i].1.clone();
            }
            i = i + 1;
        }
        let n = self.fonts.len();
        let mut bytes: Vec<u8> = Vec::new();
        bytes.push(70);
        push_dec_u64(&mut bytes, n as u64);
        proof {
            lemma_dec_digits_ascii(n as int);
            assert(bytes@ =~= seq![70u8] + dec_digits(n as int));
        }
        let key = ascii_string(bytes);
        proof {
            assert(key@ =~= font_key_chars(n as int));
        }
        self.fonts.push((font, key.clone()));
        key
    }

    /// Appends one operand and a separating space.
    pub fn push_operand<T: PdfFormat>(&mut self, operand: T)
        ensures
            final(self).content@ == old(self).content@ + operand.rendered() + seq![SPACE],
            final(self).fonts == old(self).fonts,
            final(self).filter == old(self).filter,
    {
        operand.write(&mut self.content);
        self.content.byte(SPACE);
    }

    /// Appends an operator and a separating space.
    pub fn apply_operator(&mut self, operator: &str)
        ensures
            final(self).content@ == old(self).content@ + op_bytes(operator@),
            final(self).fonts == old(self).fonts,
            final(self).filter == old(self).filter,
    {
        self.content.bytes(operator.as_bytes());
        self.content.byte(SPACE);
        assert(self.content@ =~= old(self).content@ + op_bytes(operator@));
    }

    /// Appends one operand and the operator.
    pub fn write_operation1<T: PdfFormat>(&mut self, arg1: T, operator: &str)
        ensures
            final(self).content@ == old(self).content@ + arg1.rendered() + seq![SPACE] + op_bytes(
                operator@,
            ),
            final(self).fonts == old(self).fonts,
            final(self).filter == old(self).filter,
    {
        self.push_operand(arg1);
        self.apply_operator(operator);
    }

    /// Appends two operands and the operator.
    pub fn write_operation2<T1: PdfFormat, T2: PdfFormat>(
        &mut self,
        arg1: T1,
        arg2: T2,
        operator: &str,
    )
        ensures
            final(self).content@ == old(self).content@ + arg1.rendered() + seq![SPACE]
                + arg2.rendered() + seq![SPACE] + op_bytes(operator@),
            final(self).fonts == old(self).fonts,
            final(self).filter == old(self).filter,
    {
        self.push_operand(arg1);
        self.push_operand(arg2);
        self.apply_operator(operator);
    }

    /// Appends three operands and the operator.
    pub fn write_operation3<T1: PdfFormat, T2: PdfFormat, T3: PdfFormat>(
        &mut self,
        arg1: T1,
        arg2: T2,
        arg3: T3,
        operator: &str,
    )
        ensures
            final(self).content@ == old(self).content@ + arg1.rendered() + seq![SPACE]
                + arg2.rendered() + seq![SPACE] + arg3.rendered() + seq![SPACE] + op_bytes(
                operator@,
            ),
            final(self).fonts == old(self).fonts,
            final(self).filter == old(self).filter,
    {
        self.push_operand(arg1);
        self.push_operand(arg2);
        self.push_operand(arg3);
        self.apply_operator(operator);
    }

    /// Appends four operands and the operator.
    pub fn write_operation4<T1: PdfFormat, T2: PdfFormat, T3: PdfFormat, T4: PdfFormat>(
        &mut self,
        arg1: T1,
        arg2: T2,
        arg3: T3,
        arg4: T4,
        operator: &str,
    )
        ensures
            final(self).content@ == old(self).content@ + arg1.rendered() + seq![SPACE]
                + arg2.rendered() + seq![SPACE] + arg3.rendered() + seq![SPACE] + arg4.rendered()
                + seq![SPACE] + op_bytes(operator@),
            final(self).fonts == old(self).fonts,
            final(self).filter == old(self).filter,
    {
        self.push_operand(arg1);
        self.push_operand(arg2);
        self.push_operand(arg3);
        self.push_operand(arg4);
        self.apply_operator(operator);
    }

    /// Saves the graphics state.
    pub fn save_graphics_state(&mut self)
        ensures
            final(self).content@ == old(self).content@ + op_bytes("q"@),
            final(self).fonts == old(self).fonts,
            final(self).filter == old(self).filter,
    {
        self.apply_operator("q");
    }

    /// Restores the graphics state.
    pub fn restore_graphics_state(&mut self)
        ensures
            final(self).content@ == old(self).content@ + op_bytes("Q"@),
            final(self).fonts == old(self).fonts,
            final(self).filter == old(self).filter,
    {
        self.apply_operator("Q");
    }

    /// Concatenates a matrix to the current transformation matrix.
    pub fn concatenate_matrix(&mut self, a: Real, b: Real, c: Real, d: Real, e: Pt, f: Pt)
        ensures
            final(self).content@ == old(self).content@ + a.rendered() + seq![SPACE] + b.rendered()
                + seq![SPACE] + c.rendered() + seq![SPACE] + d.rendered() + seq![SPACE]
                + e.rendered() + seq![SPACE] + f.rendered() + seq![SPACE] + op_bytes("cm"@),
            final(self).fonts == old(self).fonts,
            final(self).filter == old(self).filter,
    {
        self.push_operand(a);
        self.push_operand(b);
        self.push_operand(c);
        self.push_operand(d);
        self.push_operand(e);
        self.push_operand(f);
        self.apply_operator("cm");
    }

    /// Sets the stroke width.
    pub fn line_width(&mut self, width: Pt)
        ensures
            final(self).content@ == old(self).content@ + width.rendered() + seq![SPACE] + op_bytes(
                "w"@,
            ),
            final(self).fonts == old(self).fonts,
            final(self).filter == old(self).filter,
    {
        self.write_operation1(width, "w");
    }

    /// Sets the fill color in device RGB.
    pub fn device_rgb_fill_color(&mut self, red: Real, green: Real, blue: Real)
        ensures
            final(self).content@ == old(self).content@ + red.rendered() + seq![SPACE]
                + green.rendered() + seq![SPACE] + blue.rendered() + seq![SPACE] + op_bytes("rg"@),
            final(self).fonts == old(self).fonts,
            final(self).filter == old(self).filter,
    {
        self.write_operation3(red, green, blue, "rg");
    }

    /// Sets the stroke color in device RGB.
    pub fn device_rgb_stroke_color(&mut self, red: Real, green: Real, blue: Real)
        ensures
            final(self).content@ == old(self).content@ + red.rendered() + seq![SPACE]
                + green.rendered() + seq![SPACE] + blue.rendered() + seq![SPACE] + op_bytes("RG"@),
            final(self).fonts == old(self).fonts,
            final(self).filter == old(self).filter,
    {
        self.write_operation3(red, green, blue, "RG");
    }

    /// Begins a path at the given point.
    pub fn move_to(&mut self, x: Pt, y: Pt)
        ensures
            final(self).content@ == old(self).content@ + x.rendered() + seq![SPACE] + y.rendered()
                + seq![SPACE] + op_bytes("m"@),
            final(self).fonts == old(self).fonts,
            final(self).filter == old(self).filter,
    {
        self.write_operation2(x, y, "m");
    }

    /// Appends a line segment to the current path.
    pub fn line_to(&mut self, x: Pt, y: Pt)
        ensures
            final(self).content@ == old(self).content@ + x.rendered() + seq![SPACE] + y.rendered()
                + seq![SPACE] + op_bytes("l"@),
            final(self).fonts == old(self).fonts,
            final(self).filter == old(self).filter,
    {
        self.write_operation2(x, y, "l");
    }

    /// Appends a rectangle to the current path.
    pub fn rect(&mut self, x: Pt, y: Pt, width: Pt, height: Pt)
        ensures
            final(self).content@ == old(self).content@ + x.rendered() + seq![SPACE] + y.rendered()
                + seq![SPACE] + width.rendered() + seq![SPACE] + height.rendered() + seq![SPACE]
                + op_bytes("re"@),
            final(self).fonts == old(self).fonts,
            final(self).filter == old(self).filter,
    {
        self.write_operation4(x, y, width, height, "re");
    }

    /// Closes the current path.
    pub fn close_path(&mut self)
        ensures
            final(self).content@ == old(self).content@ + op_bytes("h"@),
            final(self).fonts == old(self).fonts,
            final(self).filter == old(self).filter,
    {
        self.apply_operator("h");
    }

    /// Strokes the current path.
    pub fn stroke_path(&mut self)
        ensures
            final(self).content@ == old(self).content@ + op_bytes("S"@),
            final(self).fonts == old(self).fonts,
            final(self).filter == old(self).filter,
    {
        self.apply_operator("S");
    }

    /// Closes and strokes the current path.
    pub fn close_and_stroke_path(&mut self)
        ensures
            final(self).content@ == old(self).content@ + op_bytes("s"@),
            final(self).fonts == old(self).fonts,
            final(self).filter == old(self).filter,
    {
        self.apply_operator("s");
    }

    /// Fills the current path.
    pub fn fill_path(&mut self)
        ensures
            final(self).content@ == old(self).content@ + op_bytes("f"@),
            final(self).fonts == old(self).fonts,
            final(self).filter == old(self).filter,
    {
        self.apply_operator("f");
    }

    /// Begins a text object.
    pub fn begin_text(&mut self)
        ensures
            final(self).content@ == old(self).content@ + op_bytes("BT"@),
            final(self).fonts == old(self).fonts,
            final(self).filter == old(self).filter,
    {
        self.apply_operator("BT");
    }

    /// Ends a text object.
    pub fn end_text(&mut self)
        ensures
            final(self).content@ == old(self).content@ + op_bytes("ET"@),
            final(self).fonts == old(self).fonts,
            final(self).filter == old(self).filter,
    {
        self.apply_operator("ET");
    }

    /// Selects a font, by its resource key, at the given size.
    pub fn set_font(&mut self, font_key: &str, size: Pt)
        ensures
            final(self).content@ == old(self).content@ + name_bytes(font_key@) + seq![SPACE]
                + size.rendered() + seq![SPACE] + op_bytes("Tf"@),
            final(self).fonts == old(self).fonts,
            final(self).filter == old(self).filter,
    {
        self.content.name(font_key);
        self.content.byte(SPACE);
        self.push_operand(size);
        self.apply_operator("Tf");
    }

    /// Moves the text position.
    pub fn set_position(&mut self, x: Pt, y: Pt)
        ensures
            final(self).content@ == old(self).content@ + x.rendered() + seq![SPACE] + y.rendered()
                + seq![SPACE] + op_bytes("Td"@),
            final(self).fonts == old(self).fonts,
            final(self).filter == old(self).filter,
    {
        self.write_operation2(x, y, "Td");
    }

    /// Shows text given as single-byte character codes.
    pub fn draw_simple_glyphs(&mut self, characters: &[u8])
        ensures
            final(self).content@ == old(self).content@ + crate::object::str_lit_simple(
                characters@,
            ) + seq![SPACE] + op_bytes("Tj"@),
            final(self).fonts == old(self).fonts,
            final(self).filter == old(self).filter,
    {
        self.content.string_simple(characters);
        self.content.byte(SPACE);
        self.apply_operator("Tj");
    }

    /// Shows text given as two-byte glyph codes, escaped by the fuller
    /// variant.
    pub fn draw_cid_glyphs(&mut self, glyphs: &Vec<u16>)
        ensures
            final(self).content@ == old(self).content@ + seq![LPAREN] + cid_glyphs_bytes(glyphs@)
                + seq![RPAREN, SPACE] + op_bytes("Tj"@),
            final(self).fonts == old(self).fonts,
            final(self).filter == old(self).filter,
    {
        self.content.byte(LPAREN);
        let ghost base = self.content@;
        assert(self.content@ =~= base + cid_glyphs_bytes(glyphs@.take(0)));
        let mut i: usize = 0;
        while i < glyphs.len()
            invariant
                self.content@ == base + cid_glyphs_bytes(glyphs@.take(i as int)),
                i <= glyphs@.len(),
                self.fonts == old(self).fonts,
                self.filter == old(self).filter,
            decreases glyphs@.len() - i,
        {
            let g = glyphs[i];
            let hi = (g / 256) as u8;
            let lo = (g % 256) as u8;
            let pair = [hi, lo];
            assert(pair@ =~= seq![(g / 256) as u8, (g % 256) as u8]);
            self.content.escaped_full(pair.as_slice());
            proof {
                lemma_cid_glyphs_snoc(glyphs@.take(i as int), glyphs@[i as int]);
                assert(glyphs@.take(i + 1) =~= glyphs@.take(i as int).push(glyphs@[i as int]));
                assert(self.content@ =~= base + cid_glyphs_bytes(glyphs@.take(i + 1)));
            }
            i = i + 1;
        }
        assert(glyphs@.take(glyphs@.len() as int) =~= glyphs@);
        self.content.byte(RPAREN);
        self.content.byte(SPACE);
        self.apply_operator("Tj");
        assert(self.content@ =~= old(self).content@ + seq![LPAREN] + cid_glyphs_bytes(glyphs@)
            + seq![RPAREN, SPACE] + op_bytes("Tj"@));
    }
}

/// The entries of a font resource dictionary: each font's key mapped to its
/// reference, in registration order.
pub open spec fn font_dict_entries(fonts: Seq<(IndirectReference<Font>, String)>) -> Seq<
    (String, Value),
> {
    Seq::new(fonts.len(), |i: int| (fonts[i].1, Value::Reference(fonts[i].0.raw)))
}

impl Page {
    /// Attaches collected page content to this page: builds the font
    /// resource dictionary, writes the content stream — encoded with the
    /// builder's filter — as an indirect object, and points the page's
    /// content list at it.
    pub fn add_content(&mut self, context: &mut DocumentContext, page_context: PageContext)
        requires
            old(context).wf(),
            old(context).crossref@.len() < u32::MAX,
        ensures
            final(context).wf(),
            (match final(self).resources {
                Some(Object::Direct(Value::Dictionary(d))) => d@.len() == 1 && d@[0].0@ == "Font"@
                    && (match d@[0].1 {
                    Value::Dictionary(inner) => inner@ == font_dict_entries(page_context.fonts@),
                    _ => false,
                }),
                _ => false,
            }),
            final(self).contents@ == seq![
                Value::Reference(
                    RawIndirectReference(old(context).crossref@.len() as i64, 0),
                ),
            ],
            final(self).media_box == old(self).media_box,
            final(self).parent == old(self).parent,
            final(context).crossref@ == old(context).crossref@.push(
                (old(context).output.offset, 0u32),
            ),
            final(context).output.inner@ == old(context).output.inner@ + obj_block(
                old(context).crossref@.len() as int,
                0,
                crate::object::stream_bytes(
                    page_context.filter,
                    match page_context.filter {
                        None => page_context.content@,
                        Some(StreamFilter::Deflate) => zlib_deflate(page_context.content@),
                    },
                    Seq::<(String, Value)>::empty(),
                ),
            ),
            final(context).version == old(context).version,
            final(context).document_catalog == old(context).document_catalog,
            final(context).page_tree == old(context).page_tree,
            final(context).document_info == old(context).document_info,
    {
        let mut font_entries: Vec<(String, Value)> = Vec::new();
        let mut i: usize = 0;
        assert(font_entries@ =~= font_dict_entries(page_context.fonts@.take(0)));
        while i < page_context.fonts.len()
            invariant
                i <= page_context.fonts@.len(),
                font_entries@ == font_dict_entries(page_context.fonts@.take(i as int)),
            decreases page_context.fonts@.len() - i,
        {
            let entry = &page_context.fonts[i];
            font_entries.push((entry.1.clone(), Value::Reference(entry.0.raw())));
            assert(font_entries@ =~= font_dict_entries(page_context.fonts@.take(i + 1)));
            i = i + 1;
        }
        assert(page_context.fonts@.take(page_context.fonts@.len() as int) =~= page_context.fonts@);
        let font_dict = Dictionary { entries: font_entries };
        let mut resource_entries: Vec<(String, Value)> = Vec::new();
        resource_entries.push((String::from_str("Font"), Value::Dictionary(font_dict)));
        let resources = Dictionary { entries: resource_entries };
        self.resources = Some(Object::Direct(Value::Dictionary(resources)));
        let mut encoder = StreamEncoder::new(page_context.filter);
        let content_bytes = page_context.content.into_bytes();
        encoder.write(content_bytes.as_slice());
        let content_stream = encoder.into_stream();
        let content_stream_ref = context.write_object(content_stream);
        let mut contents: Vec<Value> = Vec::new();
        contents.push(Value::Reference(content_stream_ref.raw()));
        assert(contents@ =~= seq![
            Value::Reference(RawIndirectReference(old(context).crossref@.len() as i64, 0)),
        ]);
        self.contents = contents;
    }
}

} // verus!
