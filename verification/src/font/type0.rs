//! Composite fonts: a top-level font referring to one descendant font
//! addressed by character identifiers.

use vstd::prelude::*;

use crate::encode::dec_digits;
use crate::font::descriptor::FontDescriptor;
use crate::font::{FontType, FontUnit};
use crate::object::{
    arr_close, arr_open, dict_close, dict_open, key_value_bytes, name_bytes, ref_bytes,
    opt_kv_bytes, render_elems, str_lit_simple, write_array_of, write_opt_kv, Formatter,
    IndirectReference, Object, PdfFormat, LANGLE, LBRACKET, NL, RANGLE, RBRACKET, SPACE,
};

verus! {

/// The subtype of a descendant font.
#[derive(Debug, Copy, Clone, PartialEq, Eq, Structural)]
pub enum CIDFontType {
    /// A descendant font whose glyphs come from a compact font format.
    CIDFontType0,
    /// A descendant font whose glyphs come from a TrueType font.
    CIDFontType2,
}

impl Default for CIDFontType {
    fn default() -> (r: Self)
        ensures
            r == CIDFontType::CIDFontType0,
    {
        CIDFontType::CIDFontType0
    }
}

impl PdfFormat for CIDFontType {
    open spec fn rendered(&self) -> Seq<u8> {
        match self {
            CIDFontType::CIDFontType0 => name_bytes("CIDFontType0"@),
            CIDFontType::CIDFontType2 => name_bytes("CIDFontType2"@),
        }
    }

    fn write(&self, f: &mut Formatter) {
        match self {
            CIDFontType::CIDFontType0 => f.name("CIDFontType0"),
            CIDFontType::CIDFontType2 => f.name("CIDFontType2"),
        }
    }
}

/// One entry of a descendant font's width table: either one advance for a
/// range of character identifiers, or a run of consecutive advances.
#[derive(Debug, Clone)]
pub enum MetricsEntry {
    /// One advance for every identifier in an inclusive range.
    Range {
        /// The first identifier of the range.
        from: u32,
        /// The last identifier of the range.
        to: u32,
        /// The advance width shared by the range.
        advance: FontUnit,
    },
    /// A run of advances for consecutive identifiers.
    Consecutive {
        /// The identifier of the first advance.
        start: u32,
        /// The advances, one per identifier.
        advances: Vec<FontUnit>,
    },
}

impl PdfFormat for MetricsEntry {
    open spec fn rendered(&self) -> Seq<u8> {
        match self {
            MetricsEntry::Range { from, to, advance } => dec_digits(*from as int) + seq![SPACE]
                + dec_digits(*to as int) + seq![SPACE] + advance.rendered() + seq![SPACE],
            MetricsEntry::Consecutive { start, advances } => dec_digits(*start as int)
                + seq![SPACE] + arr_open() + render_elems(advances@) + arr_close() + seq![SPACE],
        }
    }

    fn write(&self, f: &mut Formatter) {
        match self {
            MetricsEntry::Range { from, to, advance } => {
                f.dec_u64(*from as u64);
                f.byte(SPACE);
                f.dec_u64(*to as u64);
                f.byte(SPACE);
                advance.write(f);
                f.byte(SPACE);
                assert(f@ =~= old(f)@ + self.rendered());
            },
            MetricsEntry::Consecutive { start, advances } => {
                f.dec_u64(*start as u64);
                f.byte(SPACE);
                write_array_of(advances, f);
                f.byte(SPACE);
                assert(f@ =~= old(f)@ + self.rendered());
            },
        }
    }
}

impl PdfFormat for Vec<MetricsEntry> {
    open spec fn rendered(&self) -> Seq<u8> {
        arr_open() + render_elems(self@) + arr_close()
    }

    fn write(&self, f: &mut Formatter) {
        write_array_of(self, f);
    }
}

/// The system information of a descendant font: the registry and ordering
/// that fix the meaning of its character identifiers.
#[derive(Debug, Clone)]
pub struct CIDSystemInfo {
    /// The issuer of the character collection.
    pub registry: Vec<u8>,
    /// The name of the character collection.
    pub ordering: Vec<u8>,
    /// The supplement number of the character collection.
    pub supplement: u32,
}

/// The rendering of the system information record, without a type entry.
pub open spec fn cid_system_info_bytes(c: CIDSystemInfo) -> Seq<u8> {
    dict_open() + key_value_bytes(name_bytes("Registry"@), str_lit_simple(c.registry@))
        + key_value_bytes(name_bytes("Ordering"@), str_lit_simple(c.ordering@)) + key_value_bytes(
        name_bytes("Supplement"@),
        dec_digits(c.supplement as int),
    ) + dict_close()
}

impl Default for CIDSystemInfo {
    fn default() -> (r: Self)
        ensures
            r.registry@ == seq![65u8, 100u8, 111u8, 98u8, 101u8],
            r.ordering@ == seq![73u8, 100u8, 101u8, 110u8, 116u8, 105u8, 116u8, 121u8],
            r.supplement == 0,
    {
        let mut registry: Vec<u8> = Vec::new();
        registry.push(65);
        registry.push(100);
        registry.push(111);
        registry.push(98);
        registry.push(101);
        let mut ordering: Vec<u8> = Vec::new();
        ordering.push(73);
        ordering.push(100);
        ordering.push(101);
        ordering.push(110);
        ordering.push(116);
        ordering.push(105);
        ordering.push(116);
        ordering.push(121);
        assert(registry@ =~= seq![65u8, 100u8, 111u8, 98u8, 101u8]);
        assert(ordering@ =~= seq![73u8, 100u8, 101u8, 110u8, 116u8, 105u8, 116u8, 121u8]);
        CIDSystemInfo { registry, ordering, supplement: 0 }
    }
}

impl PdfFormat for CIDSystemInfo {
    open spec fn rendered(&self) -> Seq<u8> {
        cid_system_info_bytes(*self)
    }

    fn write(&self, f: &mut Formatter) {
        f.byte(LANGLE);
        f.byte(LANGLE);
        f.byte(SPACE);
        f.name("Registry");
        f.byte(SPACE);
        f.string_simple(self.registry.as_slice());
        f.byte(NL);
        f.name("Ordering");
        f.byte(SPACE);
        f.string_simple(self.ordering.as_slice());
        f.byte(NL);
        f.kv_line("Supplement", &self.supplement);
        f.byte(RANGLE);
        f.byte(RANGLE);
        assert(f@ =~= old(f)@ + cid_system_info_bytes(*self));
    }
}

/// A descendant font addressed by character identifiers.
#[derive(Debug, Clone)]
pub struct CIDFont {
    /// The descendant font subtype.
    pub subtype: CIDFontType,
    /// The PostScript name of the font.
    pub base_font: String,
    /// The character collection, inline or referenced.
    pub cid_system_info: Object<CIDSystemInfo>,
    /// The font descriptor.
    pub font_descriptor: IndirectReference<FontDescriptor>,
    /// The default advance width, omitted when absent.
    pub dw: Option<FontUnit>,
    /// The width table, omitted when absent.
    pub w: Option<Object<Vec<MetricsEntry>>>,
    /// The default vertical advance, omitted when absent.
    pub dw2: Option<FontUnit>,
    /// The vertical width table, omitted when absent.
    pub w2: Option<Object<Vec<MetricsEntry>>>,
    /// The mapping from character identifiers to glyphs, omitted when empty.
    pub cid_to_gid_map: String,
}

/// The rendering of an inline-or-referenced value of any serializable type.
pub open spec fn object_bytes<T: PdfFormat>(o: Object<T>) -> Seq<u8> {
    match o {
        Object::Direct(v) => v.rendered(),
        Object::Indirect(r) => ref_bytes(r.raw.0 as int, r.raw.1 as int),
    }
}

/// The rendering of a descendant font.
pub open spec fn cid_font_bytes(c: CIDFont) -> Seq<u8> {
    dict_open() + key_value_bytes(name_bytes("Type"@), name_bytes("Font"@)) + key_value_bytes(
        name_bytes("Subtype"@),
        c.subtype.rendered(),
    ) + key_value_bytes(name_bytes("BaseFont"@), name_bytes(c.base_font@)) + key_value_bytes(
        name_bytes("CIDSystemInfo"@),
        object_bytes(c.cid_system_info),
    ) + key_value_bytes(name_bytes("FontDescriptor"@), c.font_descriptor.rendered()) + opt_kv_bytes(
        "DW"@,
        c.dw,
    ) + opt_kv_bytes("W"@, c.w) + opt_kv_bytes("DW2"@, c.dw2) + opt_kv_bytes("W2"@, c.w2) + (
    if c.cid_to_gid_map@.len() == 0 {
        Seq::<u8>::empty()
    } else {
        key_value_bytes(name_bytes("CIDToGIDMap"@), name_bytes(c.cid_to_gid_map@))
    }) + dict_close()
}

impl CIDFont {
    /// Appends the leading lines shared by every descendant font.
    fn write_head(&self, f: &mut Formatter)
        ensures
            final(f)@ == old(f)@ + dict_open() + key_value_bytes(
                name_bytes("Type"@),
                name_bytes("Font"@),
            ) + key_value_bytes(name_bytes("Subtype"@), self.subtype.rendered())
                + key_value_bytes(name_bytes("BaseFont"@), name_bytes(self.base_font@))
                + key_value_bytes(
                name_bytes("CIDSystemInfo"@),
                object_bytes(self.cid_system_info),
            ) + key_value_bytes(name_bytes("FontDescriptor"@), self.font_descriptor.rendered()),
    {
        f.byte(LANGLE);
        f.byte(LANGLE);
        f.byte(SPACE);
        f.kv_name("Type", "Font");
        f.kv_line("Subtype", &self.subtype);
        f.name("BaseFont");
        f.byte(SPACE);
        f.name(self.base_font.as_str());
        f.byte(NL);
        f.kv_line("CIDSystemInfo", &self.cid_system_info);
        f.kv_line("FontDescriptor", &self.font_descriptor);
        assert(f@ =~= old(f)@ + dict_open() + key_value_bytes(
            name_bytes("Type"@),
            name_bytes("Font"@),
        ) + key_value_bytes(name_bytes("Subtype"@), self.subtype.rendered()) + key_value_bytes(
            name_bytes("BaseFont"@),
            name_bytes(self.base_font@),
        ) + key_value_bytes(name_bytes("CIDSystemInfo"@), object_bytes(self.cid_system_info))
            + key_value_bytes(name_bytes("FontDescriptor"@), self.font_descriptor.rendered()));
    }

    /// Appends the glyph-mapping line, omitted when the name is empty.
    fn write_gid_map(&self, f: &mut Formatter)
        ensures
            final(f)@ == old(f)@ + (if self.cid_to_gid_map@.len() == 0 {
                Seq::<u8>::empty()
            } else {
                key_value_bytes(name_bytes("CIDToGIDMap"@), name_bytes(self.cid_to_gid_map@))
            }),
    {
        if self.cid_to_gid_map.as_str().is_empty() {
            assert(f@ =~= old(f)@ + Seq::<u8>::empty());
        } else {
            f.kv_name("CIDToGIDMap", self.cid_to_gid_map.as_str());
        }
    }
}

impl PdfFormat for CIDFont {
    open spec fn rendered(&self) -> Seq<u8> {
        cid_font_bytes(*self)
    }

    #[verifier::rlimit(100)]
    #[verifier::spinoff_prover]
    fn write(&self, f: &mut Formatter) {
        self.write_head(f);
        write_opt_kv(f, "DW", &self.dw);
        write_opt_kv(f, "W", &self.w);
        write_opt_kv(f, "DW2", &self.dw2);
        write_opt_kv(f, "W2", &self.w2);
        self.write_gid_map(f);
        f.byte(RANGLE);
        f.byte(RANGLE);
        assert(f@ =~= old(f)@ + cid_font_bytes(*self));
    }
}

/// A composite font: the top-level font of a descendant addressed by
/// character identifiers.
#[derive(Debug, Clone)]
pub struct CompositeFont {
    /// The font subtype.
    pub subtype: FontType,
    /// The PostScript name of the font.
    pub base_font: String,
    /// The name of the character-identifier encoding.
    pub encoding: String,
    /// The single descendant font.
    pub descendant_fonts: [IndirectReference<CIDFont>; 1],
    /// A stream mapping character identifiers to text, omitted when absent.
    pub to_unicode: Option<String>,
}

/// The rendering of a composite font.
pub open spec fn composite_font_bytes(c: CompositeFont) -> Seq<u8> {
    dict_open() + key_value_bytes(name_bytes("Type"@), name_bytes("Font"@)) + key_value_bytes(
        name_bytes("Subtype"@),
        c.subtype.rendered(),
    ) + key_value_bytes(name_bytes("BaseFont"@), name_bytes(c.base_font@)) + key_value_bytes(
        name_bytes("Encoding"@),
        name_bytes(c.encoding@),
    ) + key_value_bytes(
        name_bytes("DescendantFonts"@),
        arr_open() + c.descendant_fonts@[0].rendered() + seq![SPACE] + arr_close(),
    ) + (match c.to_unicode {
        Some(s) => key_value_bytes(name_bytes("ToUnicode"@), name_bytes(s@)),
        None => Seq::<u8>::empty(),
    }) + dict_close()
}

impl CompositeFont {
    /// Appends every line but the optional text mapping.
    fn write_head(&self, f: &mut Formatter)
        ensures
            final(f)@ == old(f)@ + dict_open() + key_value_bytes(
                name_bytes("Type"@),
                name_bytes("Font"@),
            ) + key_value_bytes(name_bytes("Subtype"@), self.subtype.rendered())
                + key_value_bytes(name_bytes("BaseFont"@), name_bytes(self.base_font@))
                + key_value_bytes(name_bytes("Encoding"@), name_bytes(self.encoding@))
                + key_value_bytes(
                name_bytes("DescendantFonts"@),
                arr_open() + self.descendant_fonts@[0].rendered() + seq![SPACE] + arr_close(),
            ),
    {
        f.byte(LANGLE);
        f.byte(LANGLE);
        f.byte(SPACE);
        f.kv_name("Type", "Font");
        f.kv_line("Subtype", &self.subtype);
        f.name("BaseFont");
        f.byte(SPACE);
        f.name(self.base_font.as_str());
        f.byte(NL);
        f.name("Encoding");
        f.byte(SPACE);
        f.name(self.encoding.as_str());
        f.byte(NL);
        f.name("DescendantFonts");
        f.byte(SPACE);
        f.byte(LBRACKET);
        f.byte(SPACE);
        self.descendant_fonts[0].write(f);
        f.byte(SPACE);
        f.byte(RBRACKET);
        f.byte(NL);
        assert(f@ =~= old(f)@ + dict_open() + key_value_bytes(
            name_bytes("Type"@),
            name_bytes("Font"@),
        ) + key_value_bytes(name_bytes("Subtype"@), self.subtype.rendered()) + key_value_bytes(
            name_bytes("BaseFont"@),
            name_bytes(self.base_font@),
        ) + key_value_bytes(name_bytes("Encoding"@), name_bytes(self.encoding@))
            + key_value_bytes(
            name_bytes("DescendantFonts"@),
            arr_open() + self.descendant_fonts@[0].rendered() + seq![SPACE] + arr_close(),
        ));
    }

    /// Appends the optional text-mapping line.
    fn write_to_unicode(&self, f: &mut Formatter)
        ensures
            final(f)@ == old(f)@ + (match self.to_unicode {
                Some(s) => key_value_bytes(name_bytes("ToUnicode"@), name_bytes(s@)),
                None => Seq::<u8>::empty(),
            }),
    {
        match &self.to_unicode {
            Some(s) => {
                f.kv_name("ToUnicode", s.as_str());
            },
            None => {
                assert(f@ =~= old(f)@ + Seq::<u8>::empty());
            },
        }
    }
}

impl PdfFormat for CompositeFont {
    open spec fn rendered(&self) -> Seq<u8> {
        composite_font_bytes(*self)
    }

    #[verifier::rlimit(100)]
    #[verifier::spinoff_prover]
    fn write(&self, f: &mut Formatter) {
        self.write_head(f);
        self.write_to_unicode(f);
        f.byte(RANGLE);
        f.byte(RANGLE);
        assert(f@ =~= old(f)@ + composite_font_bytes(*self));
    }
}

} // verus!
