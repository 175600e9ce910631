//! Font descriptors: style flags, stretch classes, and the descriptor
//! record that carries a font's metrics.

use vstd::prelude::*;

use crate::encode::dec_digits;
use crate::font::FontUnit;
use crate::object::{
    arr_close, arr_open, dict_close, dict_open, key_value_bytes, name_bytes, opt_kv_bytes,
    str_lit_simple, write_opt_kv, Formatter, IndirectReference, PdfFormat, Real, LANGLE, LBRACKET,
    NL, RANGLE, RBRACKET, SPACE,
};
use crate::stream::Stream;

verus! {

/// The horizontal stretch class of a font face.
#[derive(Debug, Copy, Clone, PartialEq, Eq, Structural)]
pub enum FontStretch {
    /// The narrowest class.
    UltraCondensed,
    /// Narrower than condensed.
    ExtraCondensed,
    /// Narrower than semi-condensed.
    Condensed,
    /// Slightly narrower than normal.
    SemiCondensed,
    /// The default width class.
    Normal,
    /// Slightly wider than normal.
    SemiExpanded,
    /// Wider than semi-expanded.
    Expanded,
    /// Wider than expanded.
    ExtraExpanded,
    /// The widest class.
    UltraExpanded,
}

impl PdfFormat for FontStretch {
    open spec fn rendered(&self) -> Seq<u8> {
        match self {
            FontStretch::UltraCondensed => name_bytes("UltraCondensed"@),
            FontStretch::ExtraCondensed => name_bytes("ExtraCondensed"@),
            FontStretch::Condensed => name_bytes("Condensed"@),
            FontStretch::SemiCondensed => name_bytes("SemiCondensed"@),
            FontStretch::Normal => name_bytes("Normal"@),
            FontStretch::SemiExpanded => name_bytes("SemiExpanded"@),
            FontStretch::Expanded => name_bytes("Expanded"@),
            FontStretch::ExtraExpanded => name_bytes("ExtraExpanded"@),
            FontStretch::UltraExpanded => name_bytes("UltraExpanded"@),
        }
    }

    fn write(&self, f: &mut Formatter) {
        match self {
            FontStretch::UltraCondensed => f.name("UltraCondensed"),
            FontStretch::ExtraCondensed => f.name("ExtraCondensed"),
            FontStretch::Condensed => f.name("Condensed"),
            FontStretch::SemiCondensed => f.name("SemiCondensed"),
            FontStretch::Normal => f.name("Normal"),
            FontStretch::SemiExpanded => f.name("SemiExpanded"),
            FontStretch::Expanded => f.name("Expanded"),
            FontStretch::ExtraExpanded => f.name("ExtraExpanded"),
            FontStretch::UltraExpanded => f.name("UltraExpanded"),
        }
    }
}

/// The fixed-pitch flag bit.
pub const FLAG_FIXED_PITCH: u32 = 1;

/// The serif flag bit.
pub const FLAG_SERIF: u32 = 2;

/// The symbolic flag bit.
pub const FLAG_SYMBOLIC: u32 = 4;

/// The script flag bit.
pub const FLAG_SCRIPT: u32 = 8;

/// The nonsymbolic flag bit.
pub const FLAG_NONSYMBOLIC: u32 = 32;

/// The italic flag bit.
pub const FLAG_ITALIC: u32 = 64;

/// The all-cap flag bit.
pub const FLAG_ALL_CAP: u32 = 65536;

/// The small-cap flag bit.
pub const FLAG_SMALL_CAP: u32 = 131072;

/// The force-bold flag bit.
pub const FLAG_FORCE_BOLD: u32 = 262144;

/// A font's style flags, rendered as the decimal value of the bit set.
#[derive(Debug, Copy, Clone, PartialEq, Eq, Structural)]
pub struct FontFlags(pub u32);

impl Default for FontFlags {
    fn default() -> (r: Self)
        ensures
            r.0 == FLAG_NONSYMBOLIC,
    {
        FontFlags(FLAG_NONSYMBOLIC)
    }
}

impl PdfFormat for FontFlags {
    open spec fn rendered(&self) -> Seq<u8> {
        dec_digits(self.0 as int)
    }

    fn write(&self, f: &mut Formatter) {
        f.dec_u64(self.0 as u64)
    }
}

/// A bounding box of four font units.
pub open spec fn unit_box_bytes(b: Seq<FontUnit>) -> Seq<u8>
    recommends
        b.len() == 4,
{
    arr_open() + b[0].rendered() + seq![SPACE] + b[1].rendered() + seq![SPACE] + b[2].rendered()
        + seq![SPACE] + b[3].rendered() + seq![SPACE] + arr_close()
}

/// Appends a bounding box of four font units.
#[verifier::rlimit(100)]
#[verifier::spinoff_prover]
pub fn write_unit_box(b: &[FontUnit; 4], f: &mut Formatter)
    ensures
        final(f)@ == old(f)@ + unit_box_bytes(b@),
{
    f.byte(LBRACKET);
    f.byte(SPACE);
    b[0].write(f);
    f.byte(SPACE);
    b[1].write(f);
    f.byte(SPACE);
    b[2].write(f);
    f.byte(SPACE);
    b[3].write(f);
    f.byte(SPACE);
    f.byte(RBRACKET);
    assert(f@ =~= old(f)@ + unit_box_bytes(b@));
}

/// The record that carries a font's metrics. Fields holding their default
/// value, empty collections and absent options are omitted.
#[derive(Debug, Clone)]
pub struct FontDescriptor {
    /// The PostScript name of the font.
    pub font_name: String,
    /// The font family, omitted when empty.
    pub font_family: Vec<u8>,
    /// The stretch class, omitted when absent.
    pub font_stretch: Option<FontStretch>,
    /// The weight, omitted when absent.
    pub font_weight: Option<u32>,
    /// The style flags.
    pub flags: FontFlags,
    /// The bounding box of all glyphs.
    pub font_b_box: [FontUnit; 4],
    /// The italic angle in degrees.
    pub italic_angle: Real,
    /// The maximum height above the baseline.
    pub ascent: FontUnit,
    /// The maximum depth below the baseline.
    pub descent: FontUnit,
    /// The line spacing, omitted when zero.
    pub leading: FontUnit,
    /// The capital height, omitted when zero.
    pub cap_height: FontUnit,
    /// The x height, omitted when zero.
    pub x_height: FontUnit,
    /// The horizontal stem width, omitted when zero.
    pub stem_h: FontUnit,
    /// The vertical stem width.
    pub stem_v: FontUnit,
    /// The average glyph width, omitted when zero.
    pub avg_width: FontUnit,
    /// The maximum glyph width, omitted when zero.
    pub max_width: FontUnit,
    /// The width of missing glyphs, omitted when zero.
    pub missing_width: FontUnit,
    /// An embedded Type 1 font program, omitted when absent.
    pub font_file: Option<IndirectReference<Stream>>,
    /// An embedded TrueType font program, omitted when absent.
    pub font_file2: Option<IndirectReference<Stream>>,
    /// An embedded font program of another kind, omitted when absent.
    pub font_file3: Option<IndirectReference<Stream>>,
    /// The character names covered by the font, omitted when empty.
    pub char_set: Vec<u8>,
}

/// A `/Key value` line for a unit field that is omitted when zero.
pub open spec fn unit_entry(key: Seq<char>, u: FontUnit) -> Seq<u8> {
    if u.0.hundredths == 0 {
        Seq::<u8>::empty()
    } else {
        key_value_bytes(name_bytes(key), u.rendered())
    }
}

/// The leading lines of a font descriptor: its type and font name.
pub open spec fn fd_head_bytes(d: FontDescriptor) -> Seq<u8> {
    dict_open() + key_value_bytes(name_bytes("Type"@), name_bytes("FontDescriptor"@))
        + key_value_bytes(name_bytes("FontName"@), name_bytes(d.font_name@))
}

/// The family, stretch and weight lines, each omitted when empty or absent.
pub open spec fn fd_family_bytes(d: FontDescriptor) -> Seq<u8> {
    (if d.font_family@.len() == 0 {
        Seq::<u8>::empty()
    } else {
        key_value_bytes(name_bytes("FontFamily"@), str_lit_simple(d.font_family@))
    }) + opt_kv_bytes("FontStretch"@, d.font_stretch) + opt_kv_bytes("FontWeight"@, d.font_weight)
}

/// The mandatory metric lines from the flags through the descent.
pub open spec fn fd_metrics_bytes(d: FontDescriptor) -> Seq<u8> {
    key_value_bytes(name_bytes("Flags"@), d.flags.rendered()) + key_value_bytes(
        name_bytes("FontBBox"@),
        unit_box_bytes(d.font_b_box@),
    ) + key_value_bytes(name_bytes("ItalicAngle"@), d.italic_angle.rendered()) + key_value_bytes(
        name_bytes("Ascent"@),
        d.ascent.rendered(),
    ) + key_value_bytes(name_bytes("Descent"@), d.descent.rendered())
}

/// The width lines, most of them omitted when zero.
pub open spec fn fd_widths_bytes(d: FontDescriptor) -> Seq<u8> {
    unit_entry("Leading"@, d.leading) + unit_entry("CapHeight"@, d.cap_height) + unit_entry(
        "XHeight"@,
        d.x_height,
    ) + unit_entry("StemH"@, d.stem_h) + key_value_bytes(name_bytes("StemV"@), d.stem_v.rendered())
        + unit_entry("AvgWidth"@, d.avg_width) + unit_entry("MaxWidth"@, d.max_width) + unit_entry(
        "MissingWidth"@,
        d.missing_width,
    )
}

/// The embedded font programs and the character set, omitted when absent.
pub open spec fn fd_files_bytes(d: FontDescriptor) -> Seq<u8> {
    opt_kv_bytes("FontFile"@, d.font_file) + opt_kv_bytes("FontFile2"@, d.font_file2)
        + opt_kv_bytes("FontFile3"@, d.font_file3) + (if d.char_set@.len() == 0 {
        Seq::<u8>::empty()
    } else {
        key_value_bytes(name_bytes("CharSet"@), str_lit_simple(d.char_set@))
    })
}

/// The rendering of a font descriptor.
pub open spec fn font_descriptor_bytes(d: FontDescriptor) -> Seq<u8> {
    fd_head_bytes(d) + fd_family_bytes(d) + fd_metrics_bytes(d) + fd_widths_bytes(d)
        + fd_files_bytes(d) + dict_close()
}

impl Default for FontDescriptor {
    fn default() -> (r: Self)
        ensures
            r.font_name@.len() == 0,
            r.font_family@.len() == 0,
            r.font_stretch is None,
            r.font_weight is None,
            r.flags.0 == FLAG_NONSYMBOLIC,
            r.italic_angle.hundredths == 0,
            r.ascent.0.hundredths == 0,
            r.descent.0.hundredths == 0,
            r.leading.0.hundredths == 0,
            r.cap_height.0.hundredths == 0,
            r.x_height.0.hundredths == 0,
            r.stem_h.0.hundredths == 0,
            r.stem_v.0.hundredths == 0,
            r.avg_width.0.hundredths == 0,
            r.max_width.0.hundredths == 0,
            r.missing_width.0.hundredths == 0,
            r.font_file is None,
            r.font_file2 is None,
            r.font_file3 is None,
            r.char_set@.len() == 0,
    {
        let font_family: Vec<u8> = Vec::new();
        let char_set: Vec<u8> = Vec::new();
        FontDescriptor {
            font_name: String::new(),
            font_family,
            font_stretch: None,
            font_weight: None,
            flags: FontFlags(FLAG_NONSYMBOLIC),
            font_b_box: [FontUnit::zero(), FontUnit::zero(), FontUnit::zero(), FontUnit::zero()],
            italic_angle: Real { hundredths: 0 },
            ascent: FontUnit::zero(),
            descent: FontUnit::zero(),
            leading: FontUnit::zero(),
            cap_height: FontUnit::zero(),
            x_height: FontUnit::zero(),
            stem_h: FontUnit::zero(),
            stem_v: FontUnit::zero(),
            avg_width: FontUnit::zero(),
            max_width: FontUnit::zero(),
            missing_width: FontUnit::zero(),
            font_file: None,
            font_file2: None,
            font_file3: None,
            char_set,
        }
    }
}

impl FontDescriptor {
    /// Appends the leading mandatory lines: type and font name.
    fn write_head(&self, f: &mut Formatter)
        ensures
            final(f)@ == old(f)@ + fd_head_bytes(*self),
    {
        f.byte(LANGLE);
        f.byte(LANGLE);
        f.byte(SPACE);
        f.kv_name("Type", "FontDescriptor");
        f.name("FontName");
        f.byte(SPACE);
        f.name(self.font_name.as_str());
        f.byte(NL);
        assert(f@ =~= old(f)@ + fd_head_bytes(*self));
    }

    /// Appends the family, stretch and weight lines.
    fn write_family(&self, f: &mut Formatter)
        ensures
            final(f)@ == old(f)@ + fd_family_bytes(*self),
    {
        let ghost g0 = f@;
        if self.font_family.len() > 0 {
            f.name("FontFamily");
            f.byte(SPACE);
            f.string_simple(self.font_family.as_slice());
            f.byte(NL);
        }
        assert(f@ =~= g0 + (if self.font_family@.len() == 0 {
            Seq::<u8>::empty()
        } else {
            key_value_bytes(name_bytes("FontFamily"@), str_lit_simple(self.font_family@))
        }));
        write_opt_kv(f, "FontStretch", &self.font_stretch);
        write_opt_kv(f, "FontWeight", &self.font_weight);
        assert(f@ =~= old(f)@ + fd_family_bytes(*self));
    }

    /// Appends the mandatory metric lines from flags through descent.
    fn write_metrics(&self, f: &mut Formatter)
        ensures
            final(f)@ == old(f)@ + fd_metrics_bytes(*self),
    {
        f.kv_line("Flags", &self.flags);
        f.name("FontBBox");
        f.byte(SPACE);
        write_unit_box(&self.font_b_box, f);
        f.byte(NL);
        f.kv_line("ItalicAngle", &self.italic_angle);
        f.kv_line("Ascent", &self.ascent);
        f.kv_line("Descent", &self.descent);
        assert(f@ =~= old(f)@ + fd_metrics_bytes(*self));
    }

    /// Appends the optional line of a unit field that is omitted when zero.
    fn write_unit_entry(f: &mut Formatter, key: &str, u: FontUnit)
        ensures
            final(f)@ == old(f)@ + unit_entry(key@, u),
    {
        if u.0.hundredths != 0 {
            f.kv_line(key, &u);
        }
    }

    /// Appends the width lines.
    fn write_widths(&self, f: &mut Formatter)
        ensures
            final(f)@ == old(f)@ + fd_widths_bytes(*self),
    {
        FontDescriptor::write_unit_entry(f, "Leading", self.leading);
        FontDescriptor::write_unit_entry(f, "CapHeight", self.cap_height);
        FontDescriptor::write_unit_entry(f, "XHeight", self.x_height);
        FontDescriptor::write_unit_entry(f, "StemH", self.stem_h);
        f.kv_line("StemV", &self.stem_v);
        FontDescriptor::write_unit_entry(f, "AvgWidth", self.avg_width);
        FontDescriptor::write_unit_entry(f, "MaxWidth", self.max_width);
        FontDescriptor::write_unit_entry(f, "MissingWidth", self.missing_width);
        assert(f@ =~= old(f)@ + fd_widths_bytes(*self));
    }

    /// Appends the embedded font programs and the character set.
    fn write_files(&self, f: &mut Formatter)
        ensures
            final(f)@ == old(f)@ + fd_files_bytes(*self),
    {
        write_opt_kv(f, "FontFile", &self.font_file);
        write_opt_kv(f, "FontFile2", &self.font_file2);
        write_opt_kv(f, "FontFile3", &self.font_file3);
        let ghost g0 = f@;
        if self.char_set.len() > 0 {
            f.name("CharSet");
            f.byte(SPACE);
            f.string_simple(self.char_set.as_slice());
            f.byte(NL);
        }
        assert(f@ =~= g0 + (if self.char_set@.len() == 0 {
            Seq::<u8>::empty()
        } else {
            key_value_bytes(name_bytes("CharSet"@), str_lit_simple(self.char_set@))
        }));
        assert(f@ =~= old(f)@ + fd_files_bytes(*self));
    }
}

impl PdfFormat for FontDescriptor {
    open spec fn rendered(&self) -> Seq<u8> {
        font_descriptor_bytes(*self)
    }

    #[verifier::rlimit(100)]
    #[verifier::spinoff_prover]
    fn write(&self, f: &mut Formatter) {
        self.write_head(f);
        self.write_family(f);
        self.write_metrics(f);
        self.write_widths(f);
        self.write_files(f);
        f.byte(RANGLE);
        f.byte(RANGLE);
        assert(f@ =~= old(f)@ + font_descriptor_bytes(*self));
    }
}

} // verus!
