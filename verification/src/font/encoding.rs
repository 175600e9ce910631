//! Character-encoding entries for simple fonts.

use vstd::prelude::*;

use crate::object::{name_bytes, Formatter, PdfFormat};

verus! {

/// One of the format's predefined encodings.
#[derive(Debug, Copy, Clone, PartialEq, Eq, Structural)]
pub enum PredefinedEncoding {
    /// The standard encoding of the built-in fonts.
    StandardEncoding,
    /// The Mac OS Roman encoding.
    MacRomanEncoding,
    /// The Windows Code Page 1252 encoding.
    WinAnsiEncoding,
}

impl PdfFormat for PredefinedEncoding {
    open spec fn rendered(&self) -> Seq<u8> {
        match self {
            PredefinedEncoding::StandardEncoding => name_bytes("StandardEncoding"@),
            PredefinedEncoding::MacRomanEncoding => name_bytes("MacRomanEncoding"@),
            PredefinedEncoding::WinAnsiEncoding => name_bytes("WinAnsiEncoding"@),
        }
    }

    fn write(&self, f: &mut Formatter) {
        match self {
            PredefinedEncoding::StandardEncoding => f.name("StandardEncoding"),
            PredefinedEncoding::MacRomanEncoding => f.name("MacRomanEncoding"),
            PredefinedEncoding::WinAnsiEncoding => f.name("WinAnsiEncoding"),
        }
    }
}

/// The encoding entry of a simple font.
#[derive(Debug, Copy, Clone, PartialEq, Eq, Structural)]
pub enum EncodingEntry {
    /// A predefined encoding, named directly.
    Predefined(PredefinedEncoding),
}

impl PdfFormat for EncodingEntry {
    open spec fn rendered(&self) -> Seq<u8> {
        match self {
            EncodingEntry::Predefined(e) => e.rendered(),
        }
    }

    fn write(&self, f: &mut Formatter) {
        match self {
            EncodingEntry::Predefined(e) => e.write(f),
        }
    }
}

} // verus!
