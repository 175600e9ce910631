use lemon_pdf::content::{PageContext, Pt};
use lemon_pdf::document::{DocumentContext, Version};
use lemon_pdf::font::builtin::SimpleFont;
use lemon_pdf::font::{Font, FontType};
use lemon_pdf::object::Value;
use lemon_pdf::pagetree::{Page, Pages};

#[test]
fn lib_it_works() {
    assert_eq!(2 + 2, 4);
}

#[test]
fn header_and_version() {
    assert_eq!(Version::Pdf1_7.header(), "%PDF-1.7");
    let context = DocumentContext::with_writer(Vec::new(), Version::Pdf1_7);
    let bytes = context.output.inner;
    assert_eq!(&bytes[..9], b"%PDF-1.7\n");
    assert_eq!(&bytes[9..], b"%\xff\xff\xff\xff\n");
}

#[test]
fn table_entry_holds_exact_offset_of_block() {
    let mut context = DocumentContext::with_writer(Vec::new(), Version::Pdf1_7);
    let first = context.write_object(Value::Integer(7));
    assert_eq!(first.number(), 0);
    assert_eq!(first.generation(), 0);
    // the header is 15 bytes, so the first block begins at offset 15
    assert_eq!(context.crossref.entries[0], (15, 0));
    let block = b"0 0 obj\n7\nendobj\n";
    assert_eq!(&context.output.inner[15..15 + block.len()], block);

    let second = context.write_object(Value::Boolean(true));
    assert_eq!(second.number(), 1);
    let offset = context.crossref.entries[1].0 as usize;
    assert!(context.output.inner[offset..].starts_with(b"1 0 obj\ntrue\nendobj\n"));
}

#[test]
fn table_length_equals_number_of_allocations() {
    let mut context = DocumentContext::with_writer(Vec::new(), Version::Pdf1_7);
    assert_eq!(context.crossref.len(), 0);
    let reserved = context.reserve::<Value>();
    assert_eq!(context.crossref.len(), 1);
    context.write_object(Value::Null);
    assert_eq!(context.crossref.len(), 2);
    // committing redeems the reservation without a new allocation
    context.commit(reserved, &Value::Integer(3));
    assert_eq!(context.crossref.len(), 2);
}

#[test]
fn reserve_then_commit_patches_placeholder() {
    let mut context = DocumentContext::with_writer(Vec::new(), Version::Pdf1_7);
    let reserved = context.reserve::<Value>();
    assert_eq!(context.crossref.entries[0], (0, 0));
    let offset_before = context.output.offset();
    context.commit(reserved, &Value::Name(String::from("Later")));
    assert_eq!(context.crossref.entries[0], (offset_before, 0));
    let text = String::from_utf8_lossy(&context.output.inner).into_owned();
    assert!(text.contains("0 0 obj\n/Later\nendobj\n"));
}

#[test]
fn two_leaf_page_tree_materializes_root_then_leaves() {
    let mut context = DocumentContext::with_writer(Vec::new(), Version::Pdf1_7);
    let mut tree = Pages::new();
    tree.add_page(Page::new());
    tree.add_page(Page::new());
    let root = tree.write_to_context(&mut context);
    // exactly three allocated objects, the root numbered first
    assert_eq!(root.number(), 0);
    assert_eq!(context.crossref.len(), 3);
    let text = String::from_utf8_lossy(&context.output.inner).into_owned();
    // the root's child list holds the two leaves in insertion order
    assert!(text.contains("/Kids [ 1 0 R 2 0 R ]\n"));
    assert!(text.contains("/Count 2\n"));
    // each leaf's parent reference equals the root's identity
    assert_eq!(text.matches("/Parent 0 0 R\n").count(), 2);
    // children are serialized before the root's own block
    let leaf_pos = text.find("1 0 obj\n").unwrap();
    let root_pos = text.find("0 0 obj\n").unwrap();
    assert!(leaf_pos < root_pos);
}

#[test]
fn document_info_written_when_not_empty() {
    let mut context = DocumentContext::with_writer(Vec::new(), Version::Pdf1_7);
    context.add_page(Page::new());
    context
        .document_info
        .insert(String::from("Title"), b"My (Document)".to_vec());
    let bytes = context.finish();
    let text = String::from_utf8_lossy(&bytes).into_owned();
    assert!(text.contains("/Title (My \\(Document\\))\n"));
    // objects: tree root 0, page 1, catalog 2, info 3; the trailer names
    // the info dictionary before the identity pair
    assert!(text.contains("/Root 2 0 R\n/Info 3 0 R\n/ID [ <"));
}

#[test]
fn finish_renders_table_and_trailer() {
    let mut context = DocumentContext::with_writer(Vec::new(), Version::Pdf1_7);
    context.add_page(Page::new());
    let bytes = context.finish();
    let text = String::from_utf8_lossy(&bytes).into_owned();
    // objects: tree root 0, page 1, catalog 2
    assert!(text.contains("/Type /Catalog\n"));
    assert!(text.contains("/Pages 0 0 R\n"));
    assert!(text.contains("xref\n0 3\n"));
    // the first entry is the root's offset, zero-padded to ten digits
    assert!(text.contains(" 00000 n\r\n"));
    assert!(text.contains("trailer\n<< /Size 3\n/Root 2 0 R\n/ID [ <"));
    assert!(text.contains("\nstartxref\n"));
    assert!(text.ends_with("%%EOF\n"));
    // the identity pair holds two copies of a 32-character hex digest
    let id_start = text.find("/ID [ <").unwrap() + "/ID [ <".len();
    let id_end = text[id_start..].find('>').unwrap();
    assert_eq!(id_end, 32);
    let digest = &text[id_start..id_start + 32];
    assert!(digest.chars().all(|c| c.is_ascii_hexdigit()));
    // the startxref value points at the xref keyword
    let sx = text.find("\nstartxref\n").unwrap() + "\nstartxref\n".len();
    let sx_end = sx + text[sx..].find('\n').unwrap();
    let offset: usize = text[sx..sx_end].parse().unwrap();
    assert!(bytes[offset..].starts_with(b"xref\n"));
}

#[test]
fn hello_world_end_to_end() {
    let mut context = DocumentContext::with_writer(Vec::new(), Version::Pdf1_7);
    let mut page = Page::new();
    let mut page_context = PageContext::new(None);
    let font = SimpleFont::create_with_base_name(String::from("Helvetica"), FontType::Type1);
    let font_ref = context.write_object(Font::Simple(font));
    let font_key = page_context.add_font(font_ref);
    assert_eq!(font_key, "F0");
    page_context.begin_text();
    page_context.set_font(&font_key, Pt::from_int(48));
    page_context.set_position(Pt::from_int(20), Pt::from_int(20));
    page_context.draw_simple_glyphs(b"Hello World!");
    page_context.end_text();
    page.add_content(&mut context, page_context);
    context.add_page(page);
    let bytes = context.finish();
    let text = String::from_utf8_lossy(&bytes).into_owned();
    // exactly one page object, and exactly one page-tree root
    assert_eq!(text.matches("/Type /Page\n").count(), 1);
    assert_eq!(text.matches("/Type /Pages\n").count(), 1);
    // the page's parent is the single page-tree root (object 2: the font is
    // object 0, the content stream object 1, the root object 2)
    assert_eq!(text.matches("/Parent 2 0 R\n").count(), 1);
    assert!(text.contains("/Kids [ 3 0 R ]\n"));
    // the content stream carries the exact operator sequence
    assert!(text.contains("BT /F0 48.00 Tf 20.00 20.00 Td (Hello World!) Tj ET "));
    // the page's resources name the font under its key
    assert!(text.contains("/Font << /F0 0 0 R\n>>\n"));
    assert!(text.contains("/BaseFont /Helvetica\n"));
}

#[test]
fn font_keys_are_reused_per_font() {
    let mut context = DocumentContext::with_writer(Vec::new(), Version::Pdf1_7);
    let font = SimpleFont::create_with_base_name(String::from("Courier"), FontType::Type1);
    let font_ref = context.write_object(Font::Simple(font));
    let other = SimpleFont::create_with_base_name(String::from("Symbol"), FontType::Type1);
    let other_ref = context.write_object(Font::Simple(other));
    let mut page_context = PageContext::new(None);
    assert_eq!(page_context.add_font(font_ref), "F0");
    assert_eq!(page_context.add_font(other_ref), "F1");
    assert_eq!(page_context.add_font(font_ref), "F0");
}

#[test]
fn nested_tree_numbering_and_parents() {
    let mut context = DocumentContext::with_writer(Vec::new(), Version::Pdf1_7);
    let mut inner = Pages::new();
    inner.add_page(Page::new());
    let mut root = Pages::new();
    root.add_pagetree(inner);
    root.add_page(Page::new());
    let root_ref = root.write_to_context(&mut context);
    // depth-first pre-order: root 0, subtree 1, its leaf 2, outer leaf 3
    assert_eq!(root_ref.number(), 0);
    assert_eq!(context.crossref.len(), 4);
    let text = String::from_utf8_lossy(&context.output.inner).into_owned();
    assert!(text.contains("/Kids [ 1 0 R 3 0 R ]\n"));
    // the subtree's node points back at the root, its leaf at the subtree
    assert!(text.contains("/Parent 1 0 R\n"));
    assert_eq!(text.matches("/Parent 0 0 R\n").count(), 2);
    // counts are immediate-child counts
    assert_eq!(text.matches("/Count 2\n").count(), 1);
    assert_eq!(text.matches("/Count 1\n").count(), 1);
}
