//! Fonts: the font union, font units, and font subtypes.

use vstd::prelude::*;

use crate::encode::real_digits;
use crate::object::{name_bytes, Formatter, PdfFormat, Real};

pub mod builtin;
pub mod descriptor;
pub mod encoding;
pub mod type0;

verus! {

/// A font resource.
#[derive(Debug)]
pub enum Font {
    /// A simple font described by a base name and optional metrics.
    Simple(builtin::SimpleFont),
}

impl PdfFormat for Font {
    open spec fn rendered(&self) -> Seq<u8> {
        match self {
            Font::Simple(f) => f.rendered(),
        }
    }

    fn write(&self, f: &mut Formatter) {
        match self {
            Font::Simple(font) => font.write(f),
        }
    }
}

/// A font unit (1/1000 of an EM), held with fixed two-decimal precision.
#[derive(Debug, Copy, Clone, PartialEq, Eq, Structural)]
pub struct FontUnit(pub Real);

impl FontUnit {
    /// Zero font units.
    pub fn zero() -> (r: Self)
        ensures
            r.0.hundredths == 0,
    {
        FontUnit(Real { hundredths: 0 })
    }
}

impl PdfFormat for FontUnit {
    open spec fn rendered(&self) -> Seq<u8> {
        real_digits(self.0.hundredths as int)
    }

    fn write(&self, f: &mut Formatter) {
        f.real_num(self.0.hundredths);
    }
}

/// The subtype of a simple font.
#[derive(Debug, Copy, Clone, PartialEq, Eq, Structural, Hash)]
pub enum FontType {
    /// A PostScript Type 1 font.
    Type1,
    /// A TrueType font.
    TrueType,
}

impl Default for FontType {
    fn default() -> (r: Self)
        ensures
            r == FontType::Type1,
    {
        FontType::Type1
    }
}

impl PdfFormat for FontType {
    open spec fn rendered(&self) -> Seq<u8> {
        match self {
            FontType::Type1 => name_bytes("Type1"@),
            FontType::TrueType => name_bytes("TrueType"@),
        }
    }

    fn write(&self, f: &mut Formatter) {
        match self {
            FontType::Type1 => f.name("Type1"),
            FontType::TrueType => f.name("TrueType"),
        }
    }
}

} // verus!
