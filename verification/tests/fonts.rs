use lemon_pdf::content::Pt;
use lemon_pdf::document::{DocumentContext, Version};
use lemon_pdf::font::builtin::BuiltInFontMetrics;
use lemon_pdf::font::{FontType, FontUnit};
use lemon_pdf::object::{Formatter, PdfFormat, Real};
use lemon_pdf::pagetree::MediaBox;
use lemon_pdf::structure_tree::{StandardStructureType, StructElem, StructTreeRoot, StructureChild, StructureParent};

fn sample_metrics(family: &str, italic_hundredths: i64) -> BuiltInFontMetrics {
    BuiltInFontMetrics {
        font_name: format!("{}-Test", family),
        family_name: String::from(family),
        ascender: FontUnit(Real::from_hundredths(71800)),
        descender: FontUnit(Real::from_hundredths(-20700)),
        cap_height: FontUnit(Real::from_hundredths(71800)),
        stem_h: FontUnit(Real::from_hundredths(7600)),
        stem_v: FontUnit(Real::from_hundredths(8800)),
        font_bbox: [
            FontUnit(Real::from_hundredths(-16600)),
            FontUnit(Real::from_hundredths(-22500)),
            FontUnit(Real::from_hundredths(100000)),
            FontUnit(Real::from_hundredths(93100)),
        ],
        x_height: FontUnit(Real::from_hundredths(52300)),
        italic_angle: Real::from_hundredths(italic_hundredths),
    }
}

#[test]
fn built_in_font_writes_descriptor() {
    let mut context = DocumentContext::with_writer(Vec::new(), Version::Pdf1_7);
    let font = sample_metrics("Helvetica", 0).font(&mut context);
    assert_eq!(font.subtype, FontType::Type1);
    assert_eq!(font.base_font, "Helvetica-Test");
    let descriptor_ref = font.font_descriptor.unwrap();
    assert_eq!(descriptor_ref.number(), 0);
    let text = String::from_utf8_lossy(&context.output.inner).into_owned();
    assert!(text.contains("/Type /FontDescriptor\n"));
    assert!(text.contains("/FontName /Helvetica-Test\n"));
    assert!(text.contains("/FontFamily (Helvetica)\n"));
    // Helvetica is nonsymbolic: flag bit 32
    assert!(text.contains("/Flags 32\n"));
    assert!(text.contains("/FontBBox [ -166.00 -225.00 1000.00 931.00 ]\n"));
    assert!(text.contains("/Ascent 718.00\n"));
    assert!(text.contains("/StemV 88.00\n"));
}

#[test]
fn family_flags_follow_the_family() {
    let mut context = DocumentContext::with_writer(Vec::new(), Version::Pdf1_7);
    sample_metrics("Courier", 0).font(&mut context);
    let text = String::from_utf8_lossy(&context.output.inner).into_owned();
    // Courier: nonsymbolic, fixed-pitch, serif = 32 + 1 + 2
    assert!(text.contains("/Flags 35\n"));

    let mut context = DocumentContext::with_writer(Vec::new(), Version::Pdf1_7);
    sample_metrics("Symbol", 0).font(&mut context);
    let text = String::from_utf8_lossy(&context.output.inner).into_owned();
    assert!(text.contains("/Flags 4\n"));

    // a nonzero italic angle adds the italic bit
    let mut context = DocumentContext::with_writer(Vec::new(), Version::Pdf1_7);
    sample_metrics("Times", -1550).font(&mut context);
    let text = String::from_utf8_lossy(&context.output.inner).into_owned();
    assert!(text.contains("/Flags 98\n"));
    assert!(text.contains("/ItalicAngle -15.50\n"));
}

#[test]
fn media_box_corners() {
    let b = MediaBox::new(
        Pt(Real::from_hundredths(0)),
        Pt(Real::from_hundredths(0)),
        Pt(Real::from_hundredths(59591)),
        Pt(Real::from_hundredths(84275)),
    );
    let corners = b.as_array();
    assert_eq!(corners[2], Pt(Real::from_hundredths(59591)));
    let default_box = MediaBox::paper_a4();
    assert_eq!(default_box.as_array()[3], Pt(Real::from_hundredths(84275)));
}

#[test]
fn structure_elements_render_recursively() {
    let leaf = StructElem {
        s: StandardStructureType::P,
        p: StructureParent::Elem(lemon_pdf::object::IndirectReference::default()),
        id: Vec::new(),
        pg: None,
        k: Vec::new(),
    };
    let root = StructTreeRoot { k: vec![StructureChild::Direct(leaf)] };
    let mut f = Formatter::new();
    root.write(&mut f);
    let text = String::from_utf8_lossy(&f.into_bytes()).into_owned();
    assert!(text.starts_with("<< /Type /StructTreeRoot\n/K [ << /Type /StructElem\n/S /P\n"));
    assert!(text.contains("/Pg null\n"));
    assert!(text.contains("/K [ ]\n"));
}

#[test]
fn cid_system_info_defaults() {
    let info: lemon_pdf::font::type0::CIDSystemInfo = Default::default();
    let mut f = Formatter::new();
    info.write(&mut f);
    assert_eq!(
        f.into_bytes(),
        b"<< /Registry (Adobe)\n/Ordering (Identity)\n/Supplement 0\n>>"
    );
}

#[test]
fn array_formatter_chain() {
    let f = Formatter::new()
        .format_array()
        .value(&7i64)
        .value(&String::from("Name"))
        .finish();
    assert_eq!(f.into_bytes(), b"[ 7 /Name ]");
}

#[test]
fn reference_conversion_keeps_identity() {
    let r: lemon_pdf::object::IndirectReference<i64> = Default::default();
    let converted: lemon_pdf::object::IndirectReference<bool> = r.convert();
    assert_eq!(converted.raw(), r.raw());
    assert_eq!(converted.number(), 0);
    assert_eq!(converted.generation(), 0);
}
