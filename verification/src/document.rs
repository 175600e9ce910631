//! The document assembler: the offset-tracking writer, the document-level
//! singletons, and the context that allocates object identities and writes
//! indirect objects into a forward-only output.

use vstd::prelude::*;

use crate::crossref::CrossRef;
use crate::encode::dec_signed;
use crate::object::{
    dict_close, dict_open, key_value_bytes, kw_null, name_bytes, ref_bytes, str_lit_simple,
    Formatter, IndirectReference, PdfFormat, RawIndirectReference, LANGLE, NL, RANGLE, SPACE,
};
use crate::pagetree::{tree_bytes, tree_size, Page, PageTreeNode, Pages};

verus! {

/// Everything that `finish` appends to the output, for a given identity
/// text: the page tree's body blocks, the catalog block, the optional
/// information block, the cross-reference section over the final table, and
/// the trailer.
pub open spec fn finished_bytes(c: DocumentContext, id: Seq<char>) -> Seq<u8> {
    let n0 = c.crossref@.len() as int;
    let off0 = c.output.offset as int;
    let ts = tree_size(c.page_tree) as int;
    let tb = tree_bytes(c.page_tree, n0, crate::pagetree::spec_opt_raw(c.page_tree.parent));
    let cat = obj_block(n0 + ts, 0, catalog_bytes(Some(RawIndirectReference(n0 as i64, 0))));
    let info_block = if c.document_info@.len() > 0 {
        obj_block(n0 + ts + 1, 0, dict_open() + info_lines(c.document_info@) + dict_close())
    } else {
        Seq::<u8>::empty()
    };
    let entries = c.crossref@ + crate::pagetree::tree_xref(
        c.page_tree,
        n0,
        off0,
        crate::pagetree::spec_opt_raw(c.page_tree.parent),
    ) + seq![((off0 + tb.len()) as u64, 0u32)] + (if c.document_info@.len() > 0 {
        seq![((off0 + tb.len() + cat.len()) as u64, 0u32)]
    } else {
        Seq::<(u64, u32)>::empty()
    });
    let xref_off = off0 + tb.len() + cat.len() + info_block.len();
    let info_ref = if c.document_info@.len() > 0 {
        Some(RawIndirectReference((n0 + ts + 1) as i64, 0))
    } else {
        None::<RawIndirectReference>
    };
    tb + cat + info_block + crate::crossref::xref_bytes(entries) + crate::trailer::trailer_bytes(
        entries.len() as int,
        RawIndirectReference((n0 + ts) as i64, 0),
        info_ref,
        id,
        (xref_off as u32) as int,
    )
}

/// `block` stands at offset `off` in `output`.
pub open spec fn block_begins_at(output: Seq<u8>, off: int, block: Seq<u8>) -> bool {
    &&& 0 <= off
    &&& off + block.len() <= output.len()
    &&& output.subrange(off, off + block.len()) == block
}

/// For every object written through `write_object`, the new table entry
/// holds the exact byte offset at which the object's body block begins in
/// the output: the facts that `write_object` ensures about the table and
/// the output place the block exactly at the recorded offset.
pub proof fn lemma_entry_offset(pre: DocumentContext, post: DocumentContext, content: Seq<u8>)
    requires
        pre.wf(),
        post.crossref@ == pre.crossref@.push((pre.output.offset, 0u32)),
        post.output.inner@ == pre.output.inner@ + obj_block(
            pre.crossref@.len() as int,
            0,
            content,
        ),
    ensures
        block_begins_at(
            post.output.inner@,
            post.crossref@.last().0 as int,
            obj_block(pre.crossref@.len() as int, 0, content),
        ),
{
    let block = obj_block(pre.crossref@.len() as int, 0, content);
    assert(post.output.inner@.subrange(
        pre.output.offset as int,
        pre.output.offset + block.len(),
    ) =~= block);
}

/// The version tag written in the file's first line.
#[derive(Debug, Copy, Clone, PartialEq, Eq, Structural)]
pub enum Version {
    /// Version 1.7 of the format.
    Pdf1_7,
}

impl Version {
    /// The header line for this version, without the newline.
    pub fn header(self) -> (r: &'static str)
        ensures
            r@ == "%PDF-1.7"@,
    {
        "%PDF-1.7"
    }
}

/// The bytes that open every document: the version header line, then a
/// comment of four bytes above 127 that marks the file as binary.
pub open spec fn file_header_bytes(v: Version) -> Seq<u8> {
    seq![37u8, 80, 68, 70, 45, 49, 46, 55, 10, 37, 255, 255, 255, 255, 10]
}

/// One body block: `<number> <generation> obj`, the object's rendering, and
/// `endobj`.
pub open spec fn obj_block(number: int, generation: int, content: Seq<u8>) -> Seq<u8> {
    dec_signed(number) + seq![SPACE] + dec_signed(generation) + seq![SPACE, 111, 98, 106, NL]
        + content + seq![NL, 101, 110, 100, 111, 98, 106, NL]
}

/// Wraps the output sink, forwards every write, and accumulates a running
/// byte count. It exposes no seek operation: nothing already emitted is ever
/// touched again.
#[derive(Debug)]
pub struct OffsetTrackingWriter {
    /// The number of bytes in the sink.
    pub offset: u64,
    /// The sink itself.
    pub inner: Vec<u8>,
}

impl OffsetTrackingWriter {
    /// The byte count matches the sink.
    pub open spec fn wf(&self) -> bool {
        self.offset == self.inner@.len()
    }

    /// Wraps an empty sink; the byte count starts at zero.
    pub fn new(writer: Vec<u8>) -> (r: Self)
        requires
            writer@.len() == 0,
        ensures
            r.inner == writer,
            r.offset == 0,
            r.wf(),
    {
        OffsetTrackingWriter { offset: 0, inner: writer }
    }

    /// The running byte count.
    pub fn offset(&self) -> (r: u64)
        ensures
            r == self.offset,
    {
        self.offset
    }

    /// Hands the sink back.
    pub fn into_inner(self) -> (r: Vec<u8>)
        ensures
            r == self.inner,
    {
        self.inner
    }

    /// Forwards bytes to the sink and counts them.
    pub fn write_all(&mut self, buf: &[u8])
        requires
            old(self).wf(),
        ensures
            final(self).wf(),
            final(self).inner@ == old(self).inner@ + buf@,
            final(self).offset == old(self).offset + buf@.len(),
    {
        let mut i: usize = 0;
        assert(self.inner@ =~= old(self).inner@ + buf@.take(0));
        while i < buf.len()
            invariant
                self.inner@ == old(self).inner@ + buf@.take(i as int),
                i <= buf@.len(),
                self.offset == old(self).offset,
            decreases buf@.len() - i,
        {
            self.inner.push(buf[i]);
            assert(self.inner@ =~= old(self).inner@ + buf@.take(i + 1));
            i = i + 1;
        }
        assert(buf@.take(buf@.len() as int) =~= buf@);
        self.offset = self.inner.len() as u64;
    }
}

/// The lines of the document-information dictionary, in insertion order.
pub open spec fn info_lines(s: Seq<(String, Vec<u8>)>) -> Seq<u8>
    decreases s,
{
    if s.len() == 0 {
        Seq::empty()
    } else {
        key_value_bytes(name_bytes(s[0].0@), str_lit_simple(s[0].1@)) + info_lines(s.drop_first())
    }
}

/// Appending an entry extends the lines by that entry's line.
pub proof fn lemma_info_lines_snoc(s: Seq<(String, Vec<u8>)>, e: (String, Vec<u8>))
    ensures
        info_lines(s.push(e)) == info_lines(s) + key_value_bytes(
            name_bytes(e.0@),
            str_lit_simple(e.1@),
        ),
    decreases s.len(),
{
    if s.len() == 0 {
        assert(s.push(e).drop_first() =~= s);
        assert(info_lines(s.push(e)) =~= info_lines(s) + key_value_bytes(
            name_bytes(e.0@),
            str_lit_simple(e.1@),
        ));
    } else {
        assert(s.push(e).drop_first() =~= s.drop_first().push(e));
        lemma_info_lines_snoc(s.drop_first(), e);
        assert(info_lines(s.push(e)) =~= info_lines(s) + key_value_bytes(
            name_bytes(e.0@),
            str_lit_simple(e.1@),
        ));
    }
}

/// The document-information mapping. If it is not empty, a document
/// information dictionary with these entries is written at finish.
#[derive(Debug)]
pub struct DocumentInfo {
    /// The entries, in insertion order.
    pub entries: Vec<(String, Vec<u8>)>,
}

impl View for DocumentInfo {
    type V = Seq<(String, Vec<u8>)>;

    open spec fn view(&self) -> Seq<(String, Vec<u8>)> {
        self.entries@
    }
}

impl DocumentInfo {
    /// An empty mapping.
    pub fn new() -> (r: Self)
        ensures
            r@ == Seq::<(String, Vec<u8>)>::empty(),
    {
        let entries: Vec<(String, Vec<u8>)> = Vec::new();
        assert(entries@ =~= Seq::<(String, Vec<u8>)>::empty());
        DocumentInfo { entries }
    }

    /// Maps `key` to `value`: replaces the first entry already holding the
    /// key, and appends a new entry when none does.
    pub fn insert(&mut self, key: String, value: Vec<u8>)
        ensures
            (if exists|j: int| 0 <= j < old(self)@.len() && (#[trigger] old(self)@[j]).0@ == key@ {
                exists|j: int|
                    {
                        &&& 0 <= j < old(self)@.len()
                        &&& (#[trigger] old(self)@[j]).0@ == key@
                        &&& forall|i: int| 0 <= i < j ==> (#[trigger] old(self)@[i]).0@ != key@
                        &&& final(self)@ == old(self)@.update(j, (key, value))
                    }
            } else {
                final(self)@ == old(self)@.push((key, value))
            }),
    {
        let mut i: usize = 0;
        while i < self.entries.len()
            invariant
                i <= self.entries@.len(),
                self == old(self),
                forall|k: int| 0 <= k < i ==> (#[trigger] self.entries@[k]).0@ != key@,
            decreases self.entries@.len() - i,
        {
            if self.entries[i].0 == key {
                self.entries.set(i, (key, value));
                return ;
            }
            i = i + 1;
        }
        self.entries.push((key, value));
    }

    /// Whether the mapping has no entries.
    pub fn is_empty(&self) -> (r: bool)
        ensures
            r == (self@.len() == 0),
    {
        self.entries.len() == 0
    }
}

impl Default for DocumentInfo {
    fn default() -> (r: Self)
        ensures
            r@ == Seq::<(String, Vec<u8>)>::empty(),
    {
        DocumentInfo::new()
    }
}

impl PdfFormat for DocumentInfo {
    open spec fn rendered(&self) -> Seq<u8> {
        dict_open() + info_lines(self.entries@) + dict_close()
    }

    fn write(&self, f: &mut Formatter) {
        f.byte(LANGLE);
        f.byte(LANGLE);
        f.byte(SPACE);
        let ghost base = f@;
        assert(f@ =~= base + info_lines(self.entries@.take(0)));
        let mut i: usize = 0;
        while i < self.entries.len()
            invariant
                f@ == base + info_lines(self.entries@.take(i as int)),
                i <= self.entries@.len(),
            decreases self.entries@.len() - i,
        {
            let e = &self.entries[i];
            f.name(e.0.as_str());
            f.byte(SPACE);
            f.string_simple(e.1.as_slice());
            f.byte(NL);
            proof {
                lemma_info_lines_snoc(self.entries@.take(i as int), self.entries@[i as int]);
                assert(self.entries@.take(i + 1) =~= self.entries@.take(i as int).push(
                    self.entries@[i as int],
                ));
                assert(f@ =~= base + info_lines(self.entries@.take(i + 1)));
            }
            i = i + 1;
        }
        assert(self.entries@.take(self.entries@.len() as int) =~= self.entries@);
        f.byte(RANGLE);
        f.byte(RANGLE);
        assert(f@ =~= old(f)@ + self.rendered());
    }
}

/// The root object of the document graph, referencing the page tree.
#[derive(Debug)]
pub struct DocumentCatalog {
    /// The materialized page-tree root.
    pub pages: Option<IndirectReference<Pages>>,
}

/// The rendering of the document catalog.
pub open spec fn catalog_bytes(pages: Option<RawIndirectReference>) -> Seq<u8> {
    dict_open() + key_value_bytes(name_bytes("Type"@), name_bytes("Catalog"@)) + key_value_bytes(
        name_bytes("Pages"@),
        match pages {
            Some(r) => ref_bytes(r.0 as int, r.1 as int),
            None => kw_null(),
        },
    ) + dict_close()
}

impl PdfFormat for DocumentCatalog {
    open spec fn rendered(&self) -> Seq<u8> {
        catalog_bytes(crate::pagetree::spec_opt_raw(self.pages))
    }

    fn write(&self, f: &mut Formatter) {
        f.byte(LANGLE);
        f.byte(LANGLE);
        f.byte(SPACE);
        f.name("Type");
        f.byte(SPACE);
        f.name("Catalog");
        f.byte(NL);
        f.name("Pages");
        f.byte(SPACE);
        match &self.pages {
            Some(r) => {
                r.write(f);
            },
            None => {
                f.byte(110);
                f.byte(117);
                f.byte(108);
                f.byte(108);
            },
        }
        f.byte(NL);
        f.byte(RANGLE);
        f.byte(RANGLE);
        assert(f@ =~= old(f)@ + self.rendered());
    }
}

/// The top-level assembler. It exclusively owns the writer, the table, the
/// pending catalog and the pending page tree for its whole life; `finish`
/// consumes it, so it cannot be used twice.
#[derive(Debug)]
pub struct DocumentContext {
    /// The output sink behind the byte counter.
    pub output: OffsetTrackingWriter,
    /// The version written in the header.
    pub version: Version,
    /// The cross-reference table.
    pub crossref: CrossRef,
    /// The pending document catalog.
    pub document_catalog: DocumentCatalog,
    /// The pending page tree.
    pub page_tree: Pages,
    /// If this mapping is not empty, a document information dictionary with
    /// these entries is written at finish.
    pub document_info: DocumentInfo,
}

impl DocumentContext {
    /// The writer's byte count matches its sink, and the table is small
    /// enough that every entry's number fits the table's counter.
    pub open spec fn wf(&self) -> bool {
        &&& self.output.wf()
        &&& self.crossref@.len() <= u32::MAX
    }

    /// Opens a document over the given empty sink: writes the version
    /// header line and the binary-marker comment line, and returns the
    /// ready assembler. The writer's byte count starts at zero.
    pub fn with_writer(writer: Vec<u8>, version: Version) -> (r: Self)
        requires
            writer@.len() == 0,
        ensures
            r.wf(),
            r.output.inner@ == file_header_bytes(version),
            r.version == version,
            r.crossref@ == Seq::<(u64, u32)>::empty(),
            r.document_catalog.pages is None,
            r.page_tree.count == -1,
            r.page_tree.parent is None,
            r.page_tree.kids@ == Seq::<PageTreeNode>::empty(),
            r.document_info@ == Seq::<(String, Vec<u8>)>::empty(),
    {
        let mut context = DocumentContext {
            output: OffsetTrackingWriter::new(writer),
            version,
            crossref: Default::default(),
            document_catalog: DocumentCatalog { pages: None },
            page_tree: Pages::new(),
            document_info: DocumentInfo::new(),
        };
        context.start_pdf();
        context
    }

    /// Writes the version header line and the binary-marker comment line.
    fn start_pdf(&mut self)
        requires
            old(self).output.wf(),
        ensures
            final(self).output.wf(),
            final(self).output.inner@ == old(self).output.inner@ + file_header_bytes(
                old(self).version,
            ),
            final(self).version == old(self).version,
            final(self).crossref == old(self).crossref,
            final(self).document_catalog == old(self).document_catalog,
            final(self).page_tree == old(self).page_tree,
            final(self).document_info == old(self).document_info,
    {
        let mut fmt = Formatter::new();
        fmt.byte(37);
        fmt.byte(80);
        fmt.byte(68);
        fmt.byte(70);
        fmt.byte(45);
        fmt.byte(49);
        fmt.byte(46);
        fmt.byte(55);
        fmt.byte(10);
        fmt.byte(37);
        fmt.byte(255);
        fmt.byte(255);
        fmt.byte(255);
        fmt.byte(255);
        fmt.byte(10);
        let bytes = fmt.into_bytes();
        assert(bytes@ =~= file_header_bytes(self.version));
        self.output.write_all(bytes.as_slice());
    }

    /// Reserves an identity for an object whose content is not yet known:
    /// pushes a placeholder entry and hands out its number. The allocation
    /// is redeemed by `commit`.
    pub fn reserve<T>(&mut self) -> (r: IndirectReference<T>)
        requires
            old(self).wf(),
            old(self).crossref@.len() < u32::MAX,
        ensures
            final(self).wf(),
            r.raw.0 as int == old(self).crossref@.len(),
            r.raw.1 == 0,
            final(self).crossref@ == old(self).crossref@.push((0u64, 0u32)),
            final(self).output == old(self).output,
            final(self).version == old(self).version,
            final(self).document_catalog == old(self).document_catalog,
            final(self).page_tree == old(self).page_tree,
            final(self).document_info == old(self).document_info,
    {
        let num = self.crossref.add_entry(0, 0);
        IndirectReference::new(num as i64, 0)
    }

    /// Serializes `object` into the already-reserved slot of `reference`:
    /// patches the table entry for its number with the current byte offset,
    /// and appends the object's body block to the output.
    #[verifier::rlimit(100)]
    #[verifier::spinoff_prover]
    pub fn commit<T: PdfFormat>(&mut self, reference: IndirectReference<T>, object: &T)
        requires
            old(self).wf(),
            0 <= reference.raw.0 < old(self).crossref@.len(),
        ensures
            final(self).wf(),
            final(self).crossref@ == old(self).crossref@.update(
                reference.raw.0 as int,
                (old(self).output.offset, old(self).crossref@[reference.raw.0 as int].1),
            ),
            final(self).output.inner@ == old(self).output.inner@ + obj_block(
                reference.raw.0 as int,
                reference.raw.1 as int,
                object.rendered(),
            ),
            final(self).output.offset == old(self).output.offset + obj_block(
                reference.raw.0 as int,
                reference.raw.1 as int,
                object.rendered(),
            ).len(),
            final(self).version == old(self).version,
            final(self).document_catalog == old(self).document_catalog,
            final(self).page_tree == old(self).page_tree,
            final(self).document_info == old(self).document_info,
    {
        let offset = self.output.offset();
        self.crossref.patch(reference.raw.0 as usize, offset);
        let mut fmt = Formatter::new();
        fmt.dec_i64(reference.raw.0);
        fmt.byte(SPACE);
        fmt.dec_i64(reference.raw.1);
        fmt.byte(SPACE);
        fmt.byte(111);
        fmt.byte(98);
        fmt.byte(106);
        fmt.byte(NL);
        object.write(&mut fmt);
        fmt.byte(NL);
        fmt.byte(101);
        fmt.byte(110);
        fmt.byte(100);
        fmt.byte(111);
        fmt.byte(98);
        fmt.byte(106);
        fmt.byte(NL);
        let bytes = fmt.into_bytes();
        assert(bytes@ =~= obj_block(
            reference.raw.0 as int,
            reference.raw.1 as int,
            object.rendered(),
        ));
        self.output.write_all(bytes.as_slice());
    }

    /// Writes an indirect object and hands back a reference to it. The
    /// table gains exactly one entry, which holds the exact byte offset at
    /// which the object's body block begins.
    pub fn write_object<T: PdfFormat>(&mut self, object: T) -> (r: IndirectReference<T>)
        requires
            old(self).wf(),
            old(self).crossref@.len() < u32::MAX,
        ensures
            final(self).wf(),
            r.raw.0 as int == old(self).crossref@.len(),
            r.raw.1 == 0,
            final(self).crossref@ == old(self).crossref@.push((old(self).output.offset, 0u32)),
            final(self).output.inner@ == old(self).output.inner@ + obj_block(
                old(self).crossref@.len() as int,
                0,
                object.rendered(),
            ),
            final(self).version == old(self).version,
            final(self).document_catalog == old(self).document_catalog,
            final(self).page_tree == old(self).page_tree,
            final(self).document_info == old(self).document_info,
    {
        let reference = self.reserve::<T>();
        self.commit(reference, &object);
        assert(self.crossref@ =~= old(self).crossref@.push((old(self).output.offset, 0u32)));
        reference
    }

    /// Materializes the page tree into the catalog, writes the optional
    /// information dictionary, renders the cross-reference table and the
    /// trailer, and hands back the finished bytes. Consuming the assembler
    /// makes a second finish impossible.
    #[verifier::rlimit(100)]
    #[verifier::spinoff_prover]
    pub fn finish(self) -> (r: Vec<u8>)
        requires
            self.wf(),
            self.crossref@.len() + tree_size(self.page_tree) + 2 <= u32::MAX,
        ensures
            exists|id: Seq<char>|
                crate::trailer::is_hex_id(id) && r@ == self.output.inner@
                    + #[trigger] finished_bytes(self, id),
    {
        let ghost n0 = self.crossref@.len() as int;
        let ghost off0 = self.output.offset as int;
        let ghost ts = tree_size(self.page_tree) as int;
        let ghost tb = tree_bytes(self.page_tree, n0, crate::pagetree::spec_opt_raw(self.page_tree.parent));
        let ghost info0 = self.document_info@;
        let mut context = self;
        let mut tree = Pages::new();
        core::mem::swap(&mut tree, &mut context.page_tree);
        let root_ref = tree.write_to_context(&mut context);
        assert(context.output.inner@ == self.output.inner@ + tb);
        let mut catalog = DocumentCatalog { pages: None };
        core::mem::swap(&mut catalog, &mut context.document_catalog);
        catalog.pages = Some(root_ref);
        let ghost catalog_snap = catalog;
        let catalog_ref = context.write_object(catalog);
        let ghost cat = obj_block(
            n0 + ts,
            0,
            catalog_bytes(Some(RawIndirectReference(n0 as i64, 0))),
        );
        assert(catalog_snap.rendered() == catalog_bytes(Some(RawIndirectReference(n0 as i64, 0))));
        assert(context.output.inner@ == self.output.inner@ + tb + cat);
        let with_info = !context.document_info.is_empty();
        let info_ref: Option<IndirectReference<DocumentInfo>> = if with_info {
            let mut info = DocumentInfo::new();
            core::mem::swap(&mut info, &mut context.document_info);
            let ghost info_snap = info;
            let r = context.write_object(info);
            assert(info_snap.rendered() == dict_open() + info_lines(info0) + dict_close());
            Some(r)
        } else {
            None
        };
        let ghost info_block = if info0.len() > 0 {
            obj_block(n0 + ts + 1, 0, dict_open() + info_lines(info0) + dict_close())
        } else {
            Seq::<u8>::empty()
        };
        assert(context.output.inner@ =~= self.output.inner@ + tb + cat + info_block);
        let ghost entries = self.crossref@ + crate::pagetree::tree_xref(
            self.page_tree,
            n0,
            off0,
            crate::pagetree::spec_opt_raw(self.page_tree.parent),
        ) + seq![((off0 + tb.len()) as u64, 0u32)] + (if info0.len() > 0 {
            seq![((off0 + tb.len() + cat.len()) as u64, 0u32)]
        } else {
            Seq::<(u64, u32)>::empty()
        });
        assert(context.crossref@ =~= entries);
        let offset = context.output.offset();
        assert(offset as int == off0 + tb.len() + cat.len() + info_block.len());
        let mut fmt = Formatter::new();
        (&context.crossref).write(&mut fmt);
        let xbytes = fmt.into_bytes();
        assert(xbytes@ == crate::crossref::xref_bytes(entries));
        context.output.write_all(xbytes.as_slice());
        let trailer = crate::trailer::Trailer {
            crossref_offset: offset as u32,
            document_catalog: catalog_ref,
            document_info: info_ref,
        };
        trailer.write(&mut context);
        proof {
            let id = choose|id: Seq<char>|
                crate::trailer::is_hex_id(id) && context.output.inner@ == (self.output.inner@ + tb
                    + cat + info_block + crate::crossref::xref_bytes(entries))
                    + #[trigger] crate::trailer::trailer_bytes(
                    entries.len() as int,
                    trailer.document_catalog.raw,
                    crate::pagetree::spec_opt_raw(trailer.document_info),
                    id,
                    trailer.crossref_offset as int,
                );
            assert(crate::trailer::is_hex_id(id));
            assert(trailer.document_catalog.raw == RawIndirectReference((n0 + ts) as i64, 0));
            assert(crate::pagetree::spec_opt_raw(trailer.document_info) == (if info0.len() > 0 {
                Some(RawIndirectReference((n0 + ts + 1) as i64, 0))
            } else {
                None::<RawIndirectReference>
            }));
            assert(context.output.inner@ =~= self.output.inner@ + finished_bytes(self, id));
        }
        context.output.into_inner()
    }

    /// Appends a page to the pending root tree.
    pub fn add_page(&mut self, page: Page)
        ensures
            final(self).page_tree.kids@ == old(self).page_tree.kids@.push(
                PageTreeNode::Page(page),
            ),
            final(self).page_tree.count == old(self).page_tree.count,
            final(self).page_tree.parent == old(self).page_tree.parent,
            final(self).output == old(self).output,
            final(self).version == old(self).version,
            final(self).crossref == old(self).crossref,
            final(self).document_catalog == old(self).document_catalog,
            final(self).document_info == old(self).document_info,
    {
        self.page_tree.add_page(page);
    }
}

} // verus!
