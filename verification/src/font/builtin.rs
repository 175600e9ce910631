//! Simple fonts, described by a base name and optional metrics.

use vstd::prelude::*;
use vstd::string::{StrSliceExecFns, StringExecFns, StringSliceAdditionalSpecFns};

use crate::document::{obj_block, DocumentContext};
use crate::encode::dec_digits;
use crate::font::descriptor::{
    font_descriptor_bytes, FontDescriptor, FontFlags, FLAG_FIXED_PITCH, FLAG_ITALIC,
    FLAG_NONSYMBOLIC, FLAG_SERIF, FLAG_SYMBOLIC,
};
use crate::font::encoding::EncodingEntry;
use crate::font::{FontType, FontUnit};
use crate::object::Real;
use crate::object::{
    arr_close, arr_open, dict_close, dict_open, key_value_bytes, name_bytes, opt_kv_bytes,
    render_elems, write_array_of, write_opt_kv, Formatter, IndirectReference, PdfFormat, LANGLE,
    NL, RANGLE, SPACE,
};

verus! {

impl PdfFormat for Vec<FontUnit> {
    open spec fn rendered(&self) -> Seq<u8> {
        arr_open() + render_elems(self@) + arr_close()
    }

    fn write(&self, f: &mut Formatter) {
        write_array_of(self, f);
    }
}

/// A simple font: its subtype, base name, and optional character metrics.
#[derive(Debug, Clone)]
pub struct SimpleFont {
    /// The font subtype.
    pub subtype: FontType,
    /// The PostScript name of the font.
    pub base_font: String,
    /// The first covered character code, omitted when absent.
    pub first_char: Option<usize>,
    /// The last covered character code, omitted when absent.
    pub last_char: Option<usize>,
    /// The glyph advance widths, omitted when empty.
    pub widths: Vec<FontUnit>,
    /// The font descriptor, omitted when absent.
    pub font_descriptor: Option<IndirectReference<FontDescriptor>>,
    /// The character encoding, omitted when absent.
    pub encoding: Option<EncodingEntry>,
}

/// The rendering of a simple font.
pub open spec fn simple_font_bytes(s: SimpleFont) -> Seq<u8> {
    dict_open() + key_value_bytes(name_bytes("Type"@), name_bytes("Font"@)) + key_value_bytes(
        name_bytes("Subtype"@),
        s.subtype.rendered(),
    ) + key_value_bytes(name_bytes("BaseFont"@), name_bytes(s.base_font@)) + opt_kv_bytes(
        "FirstChar"@,
        s.first_char,
    ) + opt_kv_bytes("LastChar"@, s.last_char) + (if s.widths@.len() == 0 {
        Seq::<u8>::empty()
    } else {
        key_value_bytes(name_bytes("Widths"@), arr_open() + render_elems(s.widths@) + arr_close())
    }) + opt_kv_bytes("FontDescriptor"@, s.font_descriptor) + opt_kv_bytes("Encoding"@, s.encoding)
        + dict_close()
}

impl SimpleFont {
    /// A font with the given base name and subtype, and nothing else.
    pub fn create_with_base_name(name: String, subtype: FontType) -> (r: Self)
        ensures
            r.subtype == subtype,
            r.base_font == name,
            r.first_char is None,
            r.last_char is None,
            r.widths@.len() == 0,
            r.font_descriptor is None,
            r.encoding is None,
    {
        let widths: Vec<FontUnit> = Vec::new();
        SimpleFont {
            subtype,
            base_font: name,
            first_char: None,
            last_char: None,
            widths,
            font_descriptor: None,
            encoding: None,
        }
    }
}

impl Default for SimpleFont {
    fn default() -> (r: Self)
        ensures
            r.subtype == FontType::Type1,
            r.base_font@.len() == 0,
            r.first_char is None,
            r.last_char is None,
            r.widths@.len() == 0,
            r.font_descriptor is None,
            r.encoding is None,
    {
        SimpleFont::create_with_base_name(String::new(), FontType::Type1)
    }
}

impl SimpleFont {
    /// Appends the leading lines shared by every simple font: type,
    /// subtype, and base name.
    fn write_head(&self, f: &mut Formatter)
        ensures
            final(f)@ == old(f)@ + dict_open() + key_value_bytes(
                name_bytes("Type"@),
                name_bytes("Font"@),
            ) + key_value_bytes(name_bytes("Subtype"@), self.subtype.rendered())
                + key_value_bytes(name_bytes("BaseFont"@), name_bytes(self.base_font@)),
    {
        f.byte(LANGLE);
        f.byte(LANGLE);
        f.byte(SPACE);
        f.kv_name("Type", "Font");
        f.kv_line("Subtype", &self.subtype);
        f.name("BaseFont");
        f.byte(SPACE);
        f.name(self.base_font.as_str());
        f.byte(NL);
        assert(f@ =~= old(f)@ + dict_open() + key_value_bytes(
            name_bytes("Type"@),
            name_bytes("Font"@),
        ) + key_value_bytes(name_bytes("Subtype"@), self.subtype.rendered()) + key_value_bytes(
            name_bytes("BaseFont"@),
            name_bytes(self.base_font@),
        ));
    }

    /// Appends the width table line, omitted when the table is empty.
    fn write_widths(&self, f: &mut Formatter)
        ensures
            final(f)@ == old(f)@ + (if self.widths@.len() == 0 {
                Seq::<u8>::empty()
            } else {
                key_value_bytes(
                    name_bytes("Widths"@),
                    arr_open() + render_elems(self.widths@) + arr_close(),
                )
            }),
    {
        if self.widths.len() > 0 {
            f.name("Widths");
            f.byte(SPACE);
            write_array_of(&self.widths, f);
            f.byte(NL);
            assert(f@ =~= old(f)@ + key_value_bytes(
                name_bytes("Widths"@),
                arr_open() + render_elems(self.widths@) + arr_close(),
            ));
        } else {
            assert(f@ =~= old(f)@ + Seq::<u8>::empty());
        }
    }
}

impl PdfFormat for SimpleFont {
    open spec fn rendered(&self) -> Seq<u8> {
        simple_font_bytes(*self)
    }

    #[verifier::rlimit(100)]
    #[verifier::spinoff_prover]
    fn write(&self, f: &mut Formatter) {
        self.write_head(f);
        write_opt_kv(f, "FirstChar", &self.first_char);
        write_opt_kv(f, "LastChar", &self.last_char);
        self.write_widths(f);
        write_opt_kv(f, "FontDescriptor", &self.font_descriptor);
        write_opt_kv(f, "Encoding", &self.encoding);
        f.byte(RANGLE);
        f.byte(RANGLE);
        assert(f@ =~= old(f)@ + simple_font_bytes(*self));
    }
}

/// The metrics of one of the format's built-in fonts, prepared outside the
/// library and passed in as read-only lookup data.
#[derive(Debug, Clone)]
pub struct BuiltInFontMetrics {
    /// The PostScript name of the font.
    pub font_name: String,
    /// The family the font belongs to.
    pub family_name: String,
    /// The maximum height above the baseline.
    pub ascender: FontUnit,
    /// The maximum depth below the baseline.
    pub descender: FontUnit,
    /// The capital height.
    pub cap_height: FontUnit,
    /// The horizontal stem width.
    pub stem_h: FontUnit,
    /// The vertical stem width.
    pub stem_v: FontUnit,
    /// The bounding box of all glyphs.
    pub font_bbox: [FontUnit; 4],
    /// The x height.
    pub x_height: FontUnit,
    /// The italic angle in degrees.
    pub italic_angle: Real,
}

/// The metrics of one character of a built-in font.
#[derive(Debug, Clone)]
pub struct CharMetric {
    /// The glyph name.
    pub name: String,
    /// The glyph's bounding box.
    pub bbox: [FontUnit; 4],
    /// The character code.
    pub character_code: i32,
    /// The advance width.
    pub advance_width: FontUnit,
}

/// The style flags of a font family: the standard text families are
/// nonsymbolic — Times and Courier also serifed, Courier fixed-pitch — and
/// the symbol families symbolic.
pub open spec fn family_flags(family: Seq<char>) -> u32 {
    if family == "Helvetica"@ {
        FLAG_NONSYMBOLIC
    } else if family == "Times"@ {
        FLAG_NONSYMBOLIC | FLAG_SERIF
    } else if family == "Courier"@ {
        FLAG_NONSYMBOLIC | FLAG_FIXED_PITCH | FLAG_SERIF
    } else if family == "Symbol"@ {
        FLAG_SYMBOLIC
    } else if family == "ZapfDingbats"@ {
        FLAG_SYMBOLIC
    } else {
        FLAG_NONSYMBOLIC
    }
}

/// The style flags derived from a font's metrics: its family's flags, with
/// the italic bit added for a nonzero italic angle.
pub open spec fn metrics_flags(m: BuiltInFontMetrics) -> u32 {
    family_flags(m.family_name@) | (if m.italic_angle.hundredths != 0 {
        FLAG_ITALIC
    } else {
        0
    })
}

impl BuiltInFontMetrics {
    /// Writes a font descriptor carrying these metrics as an indirect
    /// object, and hands back a simple Type 1 font referring to it.
    pub fn font(&self, context: &mut DocumentContext) -> (r: SimpleFont)
        requires
            old(context).wf(),
            old(context).crossref@.len() < u32::MAX,
        ensures
            final(context).wf(),
            r.subtype == FontType::Type1,
            r.base_font@ == self.font_name@,
            r.first_char is None,
            r.last_char is None,
            r.widths@.len() == 0,
            r.encoding is None,
            (match r.font_descriptor {
                Some(fr) => fr.raw.0 as int == old(context).crossref@.len() && fr.raw.1 == 0,
                None => false,
            }),
            final(context).crossref@ == old(context).crossref@.push(
                (old(context).output.offset, 0u32),
            ),
            exists|fd: FontDescriptor|
                {
                    &&& fd.font_name@ == self.font_name@
                    &&& fd.font_family@ == vstd::utf8::encode_utf8(self.family_name@)
                    &&& fd.font_stretch is None
                    &&& fd.font_weight is None
                    &&& fd.flags.0 == metrics_flags(*self)
                    &&& fd.font_b_box@ == self.font_bbox@
                    &&& fd.italic_angle == self.italic_angle
                    &&& fd.ascent == self.ascender
                    &&& fd.descent == self.descender
                    &&& fd.cap_height == self.cap_height
                    &&& fd.x_height == self.x_height
                    &&& fd.stem_h == self.stem_h
                    &&& fd.stem_v == self.stem_v
                    &&& fd.leading.0.hundredths == 0
                    &&& fd.font_file is None
                    &&& fd.font_file2 is None
                    &&& fd.font_file3 is None
                    &&& final(context).output.inner@ == old(context).output.inner@
                        + #[trigger] obj_block(
                        old(context).crossref@.len() as int,
                        0,
                        font_descriptor_bytes(fd),
                    )
                },
            final(context).version == old(context).version,
            final(context).document_catalog == old(context).document_catalog,
            final(context).page_tree == old(context).page_tree,
            final(context).document_info == old(context).document_info,
    {
        let helvetica = String::from_str("Helvetica");
        let times = String::from_str("Times");
        let courier = String::from_str("Courier");
        let symbol = String::from_str("Symbol");
        let zapf = String::from_str("ZapfDingbats");
        let base: u32 = if self.family_name == helvetica {
            FLAG_NONSYMBOLIC
        } else if self.family_name == times {
            FLAG_NONSYMBOLIC | FLAG_SERIF
        } else if self.family_name == courier {
            FLAG_NONSYMBOLIC | FLAG_FIXED_PITCH | FLAG_SERIF
        } else if self.family_name == symbol {
            FLAG_SYMBOLIC
        } else if self.family_name == zapf {
            FLAG_SYMBOLIC
        } else {
            FLAG_NONSYMBOLIC
        };
        assert(base == family_flags(self.family_name@));
        let flags: u32 = if self.italic_angle.hundredths != 0 {
            base | FLAG_ITALIC
        } else {
            base | 0
        };
        assert(flags == metrics_flags(*self));
        let mut descriptor = FontDescriptor::default();
        descriptor.font_name = self.font_name.clone();
        descriptor.font_family = self.family_name.as_str().as_bytes_vec();
        descriptor.flags = FontFlags(flags);
        descriptor.font_b_box = self.font_bbox;
        descriptor.italic_angle = self.italic_angle;
        descriptor.ascent = self.ascender;
        descriptor.descent = self.descender;
        descriptor.cap_height = self.cap_height;
        descriptor.x_height = self.x_height;
        descriptor.stem_h = self.stem_h;
        descriptor.stem_v = self.stem_v;
        let descriptor_ref = context.write_object(descriptor);
        let mut font = SimpleFont::create_with_base_name(self.font_name.clone(), FontType::Type1);
        font.font_descriptor = Some(descriptor_ref);
        font
    }
}

} // verus!