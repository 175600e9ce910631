//! A library that assembles a PDF document graph and serializes it to the
//! exact byte syntax of the PDF file format.
//!
//! The document is produced by a forward-only writer: object identities are
//! handed out before an object's content is known, so that tree structures
//! can reference each other without ever seeking backward in the output.
//! Every rendering function is specified against a mathematical model of the
//! emitted byte sequence.

pub mod array;
pub mod content;
pub mod crossref;
pub mod deserializer;
pub mod dictionary;
pub mod document;
pub mod encode;
pub mod font;
pub mod object;
pub mod pagetree;
pub mod stream;
pub mod structure_tree;
pub mod trailer;

pub use content::Pt;
pub use document::{DocumentContext, Version};
pub use object::PdfFormat;
pub use pagetree::Page;
