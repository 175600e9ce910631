//! The page tree: internal nodes with ordered children, and leaf pages.
//! A materializer flattens the in-memory tree into indirect objects with
//! correct parent back-references.

use vstd::prelude::*;

use crate::content::Pt;
use crate::dictionary::Dictionary;
use crate::document::{obj_block, DocumentContext};
use crate::encode::{dec_signed, real_digits};
use crate::object::{
    arr_close, arr_open, dict_close, dict_open, key_value_bytes, lemma_render_items_snoc,
    name_bytes, ref_bytes, render_items, render_value, write_value, Formatter, IndirectReference,
    Object, PdfFormat, RawIndirectReference, Real, Value, LANGLE, LBRACKET, NL, RANGLE, RBRACKET,
    SPACE,
};

verus! {

/// The identity pair of a reference, if any.
pub open spec fn spec_opt_raw<T>(p: Option<IndirectReference<T>>) -> Option<RawIndirectReference> {
    match p {
        Some(r) => Some(r.raw),
        None => None,
    }
}

/// The optional `/Parent` line of a tree node or page.
pub open spec fn parent_entry(parent: Option<RawIndirectReference>) -> Seq<u8> {
    match parent {
        Some(r) => key_value_bytes(name_bytes("Parent"@), ref_bytes(r.0 as int, r.1 as int)),
        None => Seq::<u8>::empty(),
    }
}

/// Reference tokens, each followed by a space.
pub open spec fn ref_list_bytes(refs: Seq<RawIndirectReference>) -> Seq<u8>
    decreases refs,
{
    if refs.len() == 0 {
        Seq::empty()
    } else {
        ref_bytes(refs[0].0 as int, refs[0].1 as int) + seq![SPACE] + ref_list_bytes(
            refs.drop_first(),
        )
    }
}

/// Appending a reference extends the list by its token and a space.
pub proof fn lemma_ref_list_snoc(refs: Seq<RawIndirectReference>, r: RawIndirectReference)
    ensures
        ref_list_bytes(refs.push(r)) == ref_list_bytes(refs) + ref_bytes(r.0 as int, r.1 as int)
            + seq![SPACE],
    decreases refs.len(),
{
    if refs.len() == 0 {
        assert(refs.push(r).drop_first() =~= refs);
        assert(ref_list_bytes(refs.push(r)) =~= ref_list_bytes(refs) + ref_bytes(
            r.0 as int,
            r.1 as int,
        ) + seq![SPACE]);
    } else {
        assert(refs.push(r).drop_first() =~= refs.drop_first().push(r));
        lemma_ref_list_snoc(refs.drop_first(), r);
        assert(ref_list_bytes(refs.push(r)) =~= ref_list_bytes(refs) + ref_bytes(
            r.0 as int,
            r.1 as int,
        ) + seq![SPACE]);
    }
}

/// The dictionary of a materialized tree node: its type, the child count,
/// the parent reference for every non-root node, and the child references
/// in insertion order.
pub open spec fn pages_dict_bytes(
    count: int,
    parent: Option<RawIndirectReference>,
    kids: Seq<RawIndirectReference>,
) -> Seq<u8> {
    dict_open() + key_value_bytes(name_bytes("Type"@), name_bytes("Pages"@)) + key_value_bytes(
        name_bytes("Count"@),
        dec_signed(count),
    ) + parent_entry(parent) + key_value_bytes(
        name_bytes("Kids"@),
        arr_open() + ref_list_bytes(kids) + arr_close(),
    ) + dict_close()
}

/// The rendering of a page's media box: an array of four reals.
pub open spec fn media_box_bytes(b: Seq<Pt>) -> Seq<u8>
    recommends
        b.len() == 4,
{
    arr_open() + real_digits(b[0].0.hundredths as int) + seq![SPACE] + real_digits(
        b[1].0.hundredths as int,
    ) + seq![SPACE] + real_digits(b[2].0.hundredths as int) + seq![SPACE] + real_digits(
        b[3].0.hundredths as int,
    ) + seq![SPACE] + arr_close()
}

/// The rendering of an optional inline-or-referenced value.
pub open spec fn obj_value_bytes(o: Option<Object<Value>>) -> Seq<u8> {
    match o {
        None => crate::object::kw_null(),
        Some(Object::Direct(v)) => render_value(v),
        Some(Object::Indirect(r)) => ref_bytes(r.raw.0 as int, r.raw.1 as int),
    }
}

/// The dictionary of a page, with the parent reference given explicitly:
/// its type, resources, media box, the optional parent line, and the
/// content-stream references.
pub open spec fn page_body_bytes(p: Page, parent: Option<RawIndirectReference>) -> Seq<u8> {
    dict_open() + key_value_bytes(name_bytes("Type"@), name_bytes("Page"@)) + key_value_bytes(
        name_bytes("Resources"@),
        obj_value_bytes(p.resources),
    ) + key_value_bytes(name_bytes("MediaBox"@), media_box_bytes(p.media_box@)) + parent_entry(
        parent,
    ) + key_value_bytes(
        name_bytes("Contents"@),
        arr_open() + render_items(p.contents@) + arr_close(),
    ) + dict_close()
}

/// The dictionary of a page, using its own parent field.
pub open spec fn page_bytes(p: Page) -> Seq<u8> {
    page_body_bytes(p, spec_opt_raw(p.parent))
}

/// An internal node of the page tree: an ordered list of children, each
/// either a subtree or a leaf page.
#[derive(Debug)]
pub struct Pages {
    /// The child count, set by the materializer.
    pub count: i64,
    /// The parent node, absent for the root; set by the materializer.
    pub parent: Option<IndirectReference<Pages>>,
    /// The children, in insertion order.
    pub kids: Vec<PageTreeNode>,
}

/// One child of an internal node.
#[derive(Debug)]
pub enum PageTreeNode {
    /// A subtree.
    Tree(Pages),
    /// A leaf page.
    Page(Page),
}

impl Pages {
    /// An empty tree node.
    pub fn new() -> (r: Self)
        ensures
            r.count == -1,
            r.parent is None,
            r.kids@ == Seq::<PageTreeNode>::empty(),
    {
        let kids: Vec<PageTreeNode> = Vec::new();
        assert(kids@ =~= Seq::<PageTreeNode>::empty());
        Pages { count: -1, parent: None, kids }
    }

    /// Appends a subtree child.
    pub fn add_pagetree(&mut self, tree: Pages)
        ensures
            final(self).kids@ == old(self).kids@.push(PageTreeNode::Tree(tree)),
            final(self).count == old(self).count,
            final(self).parent == old(self).parent,
    {
        self.kids.push(PageTreeNode::Tree(tree));
    }

    /// Appends a leaf page child.
    pub fn add_page(&mut self, page: Page)
        ensures
            final(self).kids@ == old(self).kids@.push(PageTreeNode::Page(page)),
            final(self).count == old(self).count,
            final(self).parent == old(self).parent,
    {
        self.kids.push(PageTreeNode::Page(page));
    }
}

impl Default for Pages {
    fn default() -> (r: Self)
        ensures
            r.count == -1,
            r.parent is None,
            r.kids@ == Seq::<PageTreeNode>::empty(),
    {
        Pages::new()
    }
}

/// Appends a materialized tree node's dictionary to the formatter.
#[verifier::rlimit(100)]
#[verifier::spinoff_prover]
pub fn write_pages_dict(
    count: i64,
    parent: &Option<IndirectReference<Pages>>,
    kids: &Vec<RawIndirectReference>,
    f: &mut Formatter,
)
    ensures
        final(f)@ == old(f)@ + pages_dict_bytes(count as int, spec_opt_raw(*parent), kids@),
{
    f.byte(LANGLE);
    f.byte(LANGLE);
    f.byte(SPACE);
    f.name("Type");
    f.byte(SPACE);
    f.name("Pages");
    f.byte(NL);
    f.name("Count");
    f.byte(SPACE);
    f.dec_i64(count);
    f.byte(NL);
    match parent {
        Some(r) => {
            f.name("Parent");
            f.byte(SPACE);
            r.write(f);
            f.byte(NL);
        },
        None => {},
    }
    f.name("Kids");
    f.byte(SPACE);
    f.byte(LBRACKET);
    f.byte(SPACE);
    let ghost base = f@;
    assert(f@ =~= base + ref_list_bytes(kids@.take(0)));
    let mut i: usize = 0;
    while i < kids.len()
        invariant
            f@ == base + ref_list_bytes(kids@.take(i as int)),
            i <= kids@.len(),
        decreases kids@.len() - i,
    {
        let r = kids[i];
        f.dec_i64(r.0);
        f.byte(SPACE);
        f.dec_i64(r.1);
        f.byte(SPACE);
        f.byte(82);
        f.byte(SPACE);
        proof {
            lemma_ref_list_snoc(kids@.take(i as int), kids@[i as int]);
            assert(kids@.take(i + 1) =~= kids@.take(i as int).push(kids@[i as int]));
            assert(f@ =~= base + ref_list_bytes(kids@.take(i + 1)));
        }
        i = i + 1;
    }
    assert(kids@.take(kids@.len() as int) =~= kids@);
    f.byte(RBRACKET);
    f.byte(NL);
    f.byte(RANGLE);
    f.byte(RANGLE);
    assert(f@ =~= old(f)@ + pages_dict_bytes(count as int, spec_opt_raw(*parent), kids@));
}

/// Appends the rendering of an optional inline-or-referenced value.
pub fn write_obj_value(o: &Option<Object<Value>>, f: &mut Formatter)
    ensures
        final(f)@ == old(f)@ + obj_value_bytes(*o),
{
    match o {
        None => {
            f.byte(110);
            f.byte(117);
            f.byte(108);
            f.byte(108);
            assert(f@ =~= old(f)@ + obj_value_bytes(*o));
        },
        Some(Object::Direct(v)) => {
            write_value(v, f);
        },
        Some(Object::Indirect(r)) => {
            r.write(f);
        },
    }
}

/// Appends the rendering of a media box.
#[verifier::rlimit(100)]
#[verifier::spinoff_prover]
fn write_media_box(b: &[Pt; 4], f: &mut Formatter)
    ensures
        final(f)@ == old(f)@ + media_box_bytes(b@),
{
    f.byte(LBRACKET);
    f.byte(SPACE);
    b[0].write(f);
    f.byte(SPACE);
    b[1].write(f);
    f.byte(SPACE);
    b[2].write(f);
    f.byte(SPACE);
    b[3].write(f);
    f.byte(SPACE);
    f.byte(RBRACKET);
    assert(f@ =~= old(f)@ + media_box_bytes(b@));
}

/// A leaf page: content-stream references, resources, bounding box, and the
/// parent link that materialization fills in.
#[derive(Debug)]
pub struct Page {
    /// The page's resource dictionary, inline or referenced.
    pub resources: Option<Object<Value>>,
    /// The page's bounding box `[xmin ymin xmax ymax]`.
    pub media_box: [Pt; 4],
    /// The parent tree node, absent until materialization.
    pub parent: Option<IndirectReference<Pages>>,
    /// References to the page's content streams.
    pub contents: Vec<Value>,
}

impl Page {
    /// A page with empty resources, a DIN A4 media box and no content.
    pub fn new() -> (r: Self)
        ensures
            (match r.resources {
                Some(Object::Direct(Value::Dictionary(d))) => d@.len() == 0,
                _ => false,
            }),
            r.media_box@.len() == 4,
            r.media_box@[0].0.hundredths == 0,
            r.media_box@[1].0.hundredths == 0,
            r.media_box@[2].0.hundredths == 59591,
            r.media_box@[3].0.hundredths == 84275,
            r.parent is None,
            r.contents@ == Seq::<Value>::empty(),
    {
        let contents: Vec<Value> = Vec::new();
        assert(contents@ =~= Seq::<Value>::empty());
        Page {
            resources: Some(Object::Direct(Value::Dictionary(Dictionary::new()))),
            media_box: MediaBox::paper_a4().as_array(),
            parent: None,
            contents,
        }
    }

    /// Replaces the media box.
    pub fn set_media_box(&mut self, media_box: MediaBox)
        ensures
            final(self).media_box@ == media_box.spec_as_array(),
            final(self).resources == old(self).resources,
            final(self).parent == old(self).parent,
            final(self).contents == old(self).contents,
    {
        self.media_box = media_box.as_array();
        assert(self.media_box@ =~= media_box.spec_as_array());
    }

    /// Replaces the resource dictionary.
    pub fn set_resources(&mut self, resources: Object<Value>)
        ensures
            final(self).resources == Some(resources),
            final(self).media_box == old(self).media_box,
            final(self).parent == old(self).parent,
            final(self).contents == old(self).contents,
    {
        self.resources = Some(resources);
    }

    /// Sets the parent link.
    pub(crate) fn set_parent(&mut self, parent: IndirectReference<Pages>)
        ensures
            final(self).parent == Some(parent),
            final(self).media_box == old(self).media_box,
            final(self).resources == old(self).resources,
            final(self).contents == old(self).contents,
    {
        self.parent = Some(parent);
    }
}

impl Default for Page {
    fn default() -> (r: Self)
        ensures
            r.parent is None,
            r.contents@ == Seq::<Value>::empty(),
    {
        Page::new()
    }
}

impl PdfFormat for Page {
    open spec fn rendered(&self) -> Seq<u8> {
        page_bytes(*self)
    }

    #[verifier::rlimit(100)]
    #[verifier::spinoff_prover]
    fn write(&self, f: &mut Formatter) {
        let ghost kv_type = key_value_bytes(name_bytes("Type"@), name_bytes("Page"@));
        let ghost kv_resources = key_value_bytes(
            name_bytes("Resources"@),
            obj_value_bytes(self.resources),
        );
        let ghost kv_media = key_value_bytes(
            name_bytes("MediaBox"@),
            media_box_bytes(self.media_box@),
        );
        let ghost pe = parent_entry(spec_opt_raw(self.parent));
        let ghost kv_contents = key_value_bytes(
            name_bytes("Contents"@),
            arr_open() + render_items(self.contents@) + arr_close(),
        );
        f.byte(LANGLE);
        f.byte(LANGLE);
        f.byte(SPACE);
        f.name("Type");
        f.byte(SPACE);
        f.name("Page");
        f.byte(NL);
        assert(f@ =~= old(f)@ + dict_open() + kv_type);
        let ghost g1 = f@;
        f.name("Resources");
        f.byte(SPACE);
        write_obj_value(&self.resources, f);
        f.byte(NL);
        assert(f@ =~= g1 + kv_resources);
        let ghost g2 = f@;
        f.name("MediaBox");
        f.byte(SPACE);
        write_media_box(&self.media_box, f);
        f.byte(NL);
        assert(f@ =~= g2 + kv_media);
        let ghost g3 = f@;
        match &self.parent {
            Some(r) => {
                f.name("Parent");
                f.byte(SPACE);
                r.write(f);
                f.byte(NL);
            },
            None => {},
        }
        assert(f@ =~= g3 + pe);
        let ghost g4 = f@;
        f.name("Contents");
        f.byte(SPACE);
        (&self.contents).write(f);
        f.byte(NL);
        assert(f@ =~= g4 + kv_contents);
        f.byte(RANGLE);
        f.byte(RANGLE);
        assert(f@ =~= old(f)@ + dict_open() + kv_type + kv_resources + kv_media + pe + kv_contents
            + dict_close());
        assert(page_bytes(*self) == dict_open() + kv_type + kv_resources + kv_media + pe
            + kv_contents + dict_close());
    }
}

/// The number of indirect objects that one child allocates when
/// materialized.
pub open spec fn node_size(k: PageTreeNode) -> nat
    decreases k,
{
    match k {
        PageTreeNode::Page(p) => 1,
        PageTreeNode::Tree(t) => tree_size(t),
    }
}

/// The number of indirect objects that a child list allocates.
pub open spec fn kids_size(ks: Seq<PageTreeNode>) -> nat
    decreases ks,
{
    if ks.len() == 0 {
        0
    } else {
        node_size(ks[0]) + kids_size(ks.drop_first())
    }
}

/// The number of indirect objects that a whole tree allocates: one for the
/// node itself and one for every node below it.
pub open spec fn tree_size(t: Pages) -> nat
    decreases t,
{
    1 + kids_size(t.kids@)
}

/// The references that the children of a node receive, in insertion order,
/// when the first child is numbered `base`.
pub open spec fn kid_raws(ks: Seq<PageTreeNode>, base: int) -> Seq<RawIndirectReference>
    decreases ks,
{
    if ks.len() == 0 {
        Seq::empty()
    } else {
        seq![RawIndirectReference(base as i64, 0)] + kid_raws(
            ks.drop_first(),
            base + node_size(ks[0]),
        )
    }
}

/// The body blocks that one child emits: a leaf page becomes one block with
/// its parent line set; a subtree recursively emits its children and then
/// its own node block.
pub open spec fn node_bytes(k: PageTreeNode, num: int, parent: RawIndirectReference) -> Seq<u8>
    decreases k,
{
    match k {
        PageTreeNode::Page(p) => obj_block(num, 0, page_body_bytes(p, Some(parent))),
        PageTreeNode::Tree(t) => tree_bytes(t, num, Some(parent)),
    }
}

/// The body blocks that a child list emits, children in insertion order.
pub open spec fn kids_bytes(ks: Seq<PageTreeNode>, base: int, parent: RawIndirectReference) -> Seq<
    u8,
>
    decreases ks,
{
    if ks.len() == 0 {
        Seq::empty()
    } else {
        node_bytes(ks[0], base, parent) + kids_bytes(
            ks.drop_first(),
            base + node_size(ks[0]),
            parent,
        )
    }
}

/// The body blocks that a whole tree emits when its node is numbered `n0`:
/// all children first, in traversal order, then the node's own block.
pub open spec fn tree_bytes(t: Pages, n0: int, parent: Option<RawIndirectReference>) -> Seq<u8>
    decreases t,
{
    kids_bytes(t.kids@, n0 + 1, RawIndirectReference(n0 as i64, 0)) + obj_block(
        n0,
        0,
        pages_dict_bytes(t.kids@.len() as int, parent, kid_raws(t.kids@, n0 + 1)),
    )
}

/// The table entries that one child contributes, given the byte offset at
/// which its blocks begin.
pub open spec fn node_xref(k: PageTreeNode, num: int, parent: RawIndirectReference, off: int) -> Seq<
    (u64, u32),
>
    decreases k,
{
    match k {
        PageTreeNode::Page(p) => seq![(off as u64, 0u32)],
        PageTreeNode::Tree(t) => tree_xref(t, num, off, Some(parent)),
    }
}

/// The table entries that a child list contributes.
pub open spec fn kids_xref(
    ks: Seq<PageTreeNode>,
    base: int,
    parent: RawIndirectReference,
    off: int,
) -> Seq<(u64, u32)>
    decreases ks,
{
    if ks.len() == 0 {
        Seq::empty()
    } else {
        node_xref(ks[0], base, parent, off) + kids_xref(
            ks.drop_first(),
            base + node_size(ks[0]),
            parent,
            off + node_bytes(ks[0], base, parent).len(),
        )
    }
}

/// The table entries of a whole tree: the node's own entry — pointing past
/// all its children's blocks — followed by the children's entries.
pub open spec fn tree_xref(t: Pages, n0: int, off: int, parent: Option<RawIndirectReference>) -> Seq<
    (u64, u32),
>
    decreases t,
{
    seq![
        (
            (off + kids_bytes(t.kids@, n0 + 1, RawIndirectReference(n0 as i64, 0)).len()) as u64,
            0u32,
        ),
    ] + kids_xref(t.kids@, n0 + 1, RawIndirectReference(n0 as i64, 0), off)
}

/// Every child allocates at least one object.
pub proof fn lemma_kids_size_ge_len(ks: Seq<PageTreeNode>)
    ensures
        kids_size(ks) >= ks.len(),
    decreases ks.len(),
{
    if ks.len() > 0 {
        lemma_kids_size_ge_len(ks.drop_first());
        assert(node_size(ks[0]) >= 1) by {
            match ks[0] {
                PageTreeNode::Page(p) => {},
                PageTreeNode::Tree(t) => {},
            }
        }
    }
}

/// Appending a child adds its size.
pub proof fn lemma_kids_size_snoc(ks: Seq<PageTreeNode>, k: PageTreeNode)
    ensures
        kids_size(ks.push(k)) == kids_size(ks) + node_size(k),
    decreases ks.len(),
{
    if ks.len() == 0 {
        assert(ks.push(k).drop_first() =~= ks);
    } else {
        assert(ks.push(k).drop_first() =~= ks.drop_first().push(k));
        lemma_kids_size_snoc(ks.drop_first(), k);
    }
}

/// A prefix and the matching suffix together allocate the whole list's size.
pub proof fn lemma_kids_size_split(ks: Seq<PageTreeNode>, j: int)
    requires
        0 <= j <= ks.len(),
    ensures
        kids_size(ks) == kids_size(ks.take(j)) + kids_size(ks.skip(j)),
    decreases j,
{
    if j == 0 {
        assert(ks.take(0) =~= Seq::<PageTreeNode>::empty());
        assert(ks.skip(0) =~= ks);
    } else {
        lemma_kids_size_split(ks, j - 1);
        assert(ks.take(j) =~= ks.take(j - 1).push(ks[j - 1]));
        lemma_kids_size_snoc(ks.take(j - 1), ks[j - 1]);
        assert(ks.skip(j - 1)[0] == ks[j - 1]);
        assert(ks.skip(j - 1).drop_first() =~= ks.skip(j));
        assert(kids_size(ks.skip(j - 1)) == node_size(ks[j - 1]) + kids_size(ks.skip(j)));
    }
}

/// Appending a child appends its reference, numbered past the prefix.
pub proof fn lemma_kid_raws_snoc(ks: Seq<PageTreeNode>, k: PageTreeNode, base: int)
    ensures
        kid_raws(ks.push(k), base) == kid_raws(ks, base).push(
            RawIndirectReference((base + kids_size(ks)) as i64, 0),
        ),
    decreases ks.len(),
{
    if ks.len() == 0 {
        assert(ks.push(k).drop_first() =~= ks);
        assert((ks.push(k))[0] == k);
        assert(kids_size(ks) == 0);
        assert(kid_raws(ks, base) == Seq::<RawIndirectReference>::empty());
        assert(kid_raws(ks, base + node_size(k)) == Seq::<RawIndirectReference>::empty());
        assert(kid_raws(ks.push(k), base) == seq![RawIndirectReference(base as i64, 0)] + kid_raws(
            ks,
            base + node_size(k),
        ));
        assert(kid_raws(ks.push(k), base) =~= kid_raws(ks, base).push(
            RawIndirectReference((base + kids_size(ks)) as i64, 0),
        ));
    } else {
        assert(ks.push(k).drop_first() =~= ks.drop_first().push(k));
        assert((ks.push(k))[0] == ks[0]);
        lemma_kid_raws_snoc(ks.drop_first(), k, base + node_size(ks[0]));
        assert(kids_size(ks) == node_size(ks[0]) + kids_size(ks.drop_first()));
        assert(kid_raws(ks.push(k), base) == seq![RawIndirectReference(base as i64, 0)] + kid_raws(
            ks.drop_first().push(k),
            base + node_size(ks[0]),
        ));
        assert(kid_raws(ks.push(k), base) =~= kid_raws(ks, base).push(
            RawIndirectReference((base + kids_size(ks)) as i64, 0),
        ));
    }
}

/// Appending a child appends its blocks, numbered past the prefix.
pub proof fn lemma_kids_bytes_snoc(
    ks: Seq<PageTreeNode>,
    k: PageTreeNode,
    base: int,
    parent: RawIndirectReference,
)
    ensures
        kids_bytes(ks.push(k), base, parent) == kids_bytes(ks, base, parent) + node_bytes(
            k,
            base + kids_size(ks),
            parent,
        ),
    decreases ks.len(),
{
    if ks.len() == 0 {
        assert(ks.push(k).drop_first() =~= ks);
        assert((ks.push(k))[0] == k);
        assert(kids_size(ks) == 0);
        assert(kids_bytes(ks, base, parent) == Seq::<u8>::empty());
        assert(kids_bytes(ks, base + node_size(k), parent) == Seq::<u8>::empty());
        assert(kids_bytes(ks.push(k), base, parent) == node_bytes(k, base, parent) + kids_bytes(
            ks,
            base + node_size(k),
            parent,
        ));
        assert(kids_bytes(ks.push(k), base, parent) =~= kids_bytes(ks, base, parent) + node_bytes(
            k,
            base + kids_size(ks),
            parent,
        ));
    } else {
        assert(ks.push(k).drop_first() =~= ks.drop_first().push(k));
        assert((ks.push(k))[0] == ks[0]);
        lemma_kids_bytes_snoc(ks.drop_first(), k, base + node_size(ks[0]), parent);
        assert(kids_size(ks) == node_size(ks[0]) + kids_size(ks.drop_first()));
        assert(kids_bytes(ks.push(k), base, parent) == node_bytes(ks[0], base, parent)
            + kids_bytes(ks.drop_first().push(k), base + node_size(ks[0]), parent));
        assert(kids_bytes(ks.push(k), base, parent) =~= kids_bytes(ks, base, parent) + node_bytes(
            k,
            base + kids_size(ks),
            parent,
        ));
    }
}

/// Appending a child appends its table entries, placed past the prefix's
/// blocks.
#[verifier::rlimit(100)]
#[verifier::spinoff_prover]
pub proof fn lemma_kids_xref_snoc(
    ks: Seq<PageTreeNode>,
    k: PageTreeNode,
    base: int,
    parent: RawIndirectReference,
    off: int,
)
    ensures
        kids_xref(ks.push(k), base, parent, off) == kids_xref(ks, base, parent, off) + node_xref(
            k,
            base + kids_size(ks),
            parent,
            off + kids_bytes(ks, base, parent).len(),
        ),
    decreases ks.len(),
{
    if ks.len() == 0 {
        assert(ks.push(k).drop_first() =~= ks);
        assert((ks.push(k))[0] == k);
        assert(kids_size(ks) == 0);
        assert(kids_bytes(ks, base, parent) == Seq::<u8>::empty());
        assert(kids_xref(ks, base, parent, off) == Seq::<(u64, u32)>::empty());
        assert(kids_xref(ks, base + node_size(k), parent, off + node_bytes(k, base, parent).len())
            == Seq::<(u64, u32)>::empty());
        assert(kids_xref(ks.push(k), base, parent, off) == node_xref(k, base, parent, off)
            + kids_xref(ks, base + node_size(k), parent, off + node_bytes(k, base, parent).len()));
        assert(kids_xref(ks.push(k), base, parent, off) =~= kids_xref(ks, base, parent, off)
            + node_xref(k, base + kids_size(ks), parent, off + kids_bytes(ks, base, parent).len()));
    } else {
        assert(ks.push(k).drop_first() =~= ks.drop_first().push(k));
        assert((ks.push(k))[0] == ks[0]);
        lemma_kids_xref_snoc(
            ks.drop_first(),
            k,
            base + node_size(ks[0]),
            parent,
            off + node_bytes(ks[0], base, parent).len(),
        );
        assert(kids_size(ks) == node_size(ks[0]) + kids_size(ks.drop_first()));
        lemma_kids_bytes_snoc(ks, k, base, parent);
        assert(kids_bytes(ks, base, parent) == node_bytes(ks[0], base, parent) + kids_bytes(
            ks.drop_first(),
            base + node_size(ks[0]),
            parent,
        ));
        assert(kids_xref(ks.push(k), base, parent, off) == node_xref(ks[0], base, parent, off)
            + kids_xref(
            ks.drop_first().push(k),
            base + node_size(ks[0]),
            parent,
            off + node_bytes(ks[0], base, parent).len(),
        ));
        assert(kids_xref(ks.push(k), base, parent, off) =~= kids_xref(ks, base, parent, off)
            + node_xref(k, base + kids_size(ks), parent, off + kids_bytes(ks, base, parent).len()));
    }
}

/// A root with two leaf pages materializes to exactly three allocated
/// objects, in root-then-leaves numbering: the root takes the first number
/// and its children the two following ones, in insertion order; each leaf's
/// block carries a parent reference equal to the root's identity; and the
/// root's child-reference list has length two, in insertion order.
#[verifier::rlimit(100)]
#[verifier::spinoff_prover]
pub proof fn lemma_two_leaf_tree(t: Pages, n0: int, off: int, parent: Option<RawIndirectReference>)
    requires
        t.kids@.len() == 2,
        t.kids@[0] is Page,
        t.kids@[1] is Page,
    ensures
        tree_size(t) == 3,
        tree_xref(t, n0, off, parent).len() == 3,
        kid_raws(t.kids@, n0 + 1) == seq![
            RawIndirectReference((n0 + 1) as i64, 0),
            RawIndirectReference((n0 + 2) as i64, 0),
        ],
        tree_bytes(t, n0, parent) == obj_block(
            n0 + 1,
            0,
            page_body_bytes(t.kids@[0]->Page_0, Some(RawIndirectReference(n0 as i64, 0))),
        ) + obj_block(
            n0 + 2,
            0,
            page_body_bytes(t.kids@[1]->Page_0, Some(RawIndirectReference(n0 as i64, 0))),
        ) + obj_block(
            n0,
            0,
            pages_dict_bytes(2, parent, kid_raws(t.kids@, n0 + 1)),
        ),
{
    let ks = t.kids@;
    let pr = RawIndirectReference(n0 as i64, 0);
    assert(ks.drop_first().len() == 1);
    assert(ks.drop_first()[0] == ks[1]);
    assert(ks.drop_first().drop_first() =~= Seq::<PageTreeNode>::empty());
    assert(node_size(ks[0]) == 1);
    assert(node_size(ks[1]) == 1);
    assert(kids_size(ks.drop_first().drop_first()) == 0);
    assert(kids_size(ks.drop_first()) == 1);
    assert(kids_size(ks) == 2);
    assert(tree_size(t) == 3);
    assert(kid_raws(ks.drop_first().drop_first(), n0 + 3) == Seq::<RawIndirectReference>::empty());
    assert(kid_raws(ks.drop_first(), n0 + 2) =~= seq![RawIndirectReference((n0 + 2) as i64, 0)]);
    assert(kid_raws(ks, n0 + 1) =~= seq![
        RawIndirectReference((n0 + 1) as i64, 0),
        RawIndirectReference((n0 + 2) as i64, 0),
    ]);
    assert(node_bytes(ks[0], n0 + 1, pr) == obj_block(
        n0 + 1,
        0,
        page_body_bytes(ks[0]->Page_0, Some(pr)),
    ));
    assert(node_bytes(ks[1], n0 + 2, pr) == obj_block(
        n0 + 2,
        0,
        page_body_bytes(ks[1]->Page_0, Some(pr)),
    ));
    assert(kids_bytes(ks.drop_first().drop_first(), n0 + 3, pr) == Seq::<u8>::empty());
    assert(kids_bytes(ks.drop_first(), n0 + 2, pr) =~= node_bytes(ks[1], n0 + 2, pr));
    assert(kids_bytes(ks, n0 + 1, pr) =~= node_bytes(ks[0], n0 + 1, pr) + node_bytes(
        ks[1],
        n0 + 2,
        pr,
    ));
    assert(tree_bytes(t, n0, parent) =~= node_bytes(ks[0], n0 + 1, pr) + node_bytes(
        ks[1],
        n0 + 2,
        pr,
    ) + obj_block(n0, 0, pages_dict_bytes(2, parent, kid_raws(ks, n0 + 1))));
    assert(node_xref(ks[0], n0 + 1, pr, off).len() == 1);
    assert(node_xref(ks[1], n0 + 2, pr, off + node_bytes(ks[0], n0 + 1, pr).len()).len() == 1);
    assert(kids_xref(ks.drop_first().drop_first(), n0 + 3, pr, off + node_bytes(
        ks[0],
        n0 + 1,
        pr,
    ).len() + node_bytes(ks[1], n0 + 2, pr).len()).len() == 0);
    assert(kids_xref(ks.drop_first(), n0 + 2, pr, off + node_bytes(ks[0], n0 + 1, pr).len()).len()
        == 1);
    assert(kids_xref(ks, n0 + 1, pr, off).len() == 2);
    assert(tree_xref(t, n0, off, parent).len() == 3);
}

/// The record written for one materialized tree node.
struct PagesNode {
    count: i64,
    parent: Option<IndirectReference<Pages>>,
    kids: Vec<RawIndirectReference>,
}

impl PdfFormat for PagesNode {
    closed spec fn rendered(&self) -> Seq<u8> {
        pages_dict_bytes(self.count as int, spec_opt_raw(self.parent), self.kids@)
    }

    fn write(&self, f: &mut Formatter) {
        write_pages_dict(self.count, &self.parent, &self.kids, f);
    }
}

/// Materializes one tree node, depth-first and pre-order: reserves the
/// node's identity before its content exists, serializes each child with its
/// parent line set to that identity — collecting the resulting references —
/// and finally serializes the node's own dictionary into the reserved slot.
#[verifier::rlimit(100)]
#[verifier::spinoff_prover]
fn write_subtree(
    tree: Pages,
    parent: Option<IndirectReference<Pages>>,
    context: &mut DocumentContext,
) -> (r: IndirectReference<Pages>)
    requires
        old(context).wf(),
        old(context).crossref@.len() + tree_size(tree) <= u32::MAX,
    ensures
        final(context).wf(),
        r.raw.0 as int == old(context).crossref@.len(),
        r.raw.1 == 0,
        final(context).crossref@ == old(context).crossref@ + tree_xref(
            tree,
            old(context).crossref@.len() as int,
            old(context).output.offset as int,
            spec_opt_raw(parent),
        ),
        final(context).crossref@.len() == old(context).crossref@.len() + tree_size(tree),
        final(context).output.inner@ == old(context).output.inner@ + tree_bytes(
            tree,
            old(context).crossref@.len() as int,
            spec_opt_raw(parent),
        ),
        final(context).version == old(context).version,
        final(context).document_catalog == old(context).document_catalog,
        final(context).page_tree == old(context).page_tree,
        final(context).document_info == old(context).document_info,
    decreases tree_size(tree),
{
    let ghost n0 = old(context).crossref@.len() as int;
    let ghost off0 = old(context).output.offset as int;
    let ghost ks0 = tree.kids@;
    let self_ref: IndirectReference<Pages> = context.reserve();
    let ghost pr = RawIndirectReference(n0 as i64, 0);
    assert(self_ref.raw == pr);
    let mut kids = tree.kids;
    let mut kid_refs: Vec<RawIndirectReference> = Vec::new();
    let ghost mut j: int = 0;
    proof {
        assert(ks0.take(0) =~= Seq::<PageTreeNode>::empty());
        assert(ks0.skip(0) =~= ks0);
        assert(context.crossref@ =~= old(context).crossref@.push((0u64, 0u32)) + kids_xref(
            ks0.take(0),
            n0 + 1,
            pr,
            off0,
        ));
        assert(context.output.inner@ =~= old(context).output.inner@ + kids_bytes(
            ks0.take(0),
            n0 + 1,
            pr,
        ));
        assert(kid_refs@ =~= kid_raws(ks0.take(0), n0 + 1));
    }
    while kids.len() > 0
        invariant
            context.wf(),
            0 <= j <= ks0.len(),
            kids@ == ks0.skip(j),
            context.crossref@ == old(context).crossref@.push((0u64, 0u32)) + kids_xref(
                ks0.take(j),
                n0 + 1,
                pr,
                off0,
            ),
            context.crossref@.len() == n0 + 1 + kids_size(ks0.take(j)),
            context.output.inner@ == old(context).output.inner@ + kids_bytes(
                ks0.take(j),
                n0 + 1,
                pr,
            ),
            context.output.offset == off0 + kids_bytes(ks0.take(j), n0 + 1, pr).len(),
            kid_refs@ == kid_raws(ks0.take(j), n0 + 1),
            kid_refs@.len() == j,
            context.version == old(context).version,
            context.document_catalog == old(context).document_catalog,
            context.page_tree == old(context).page_tree,
            context.document_info == old(context).document_info,
            n0 == old(context).crossref@.len() as int,
            off0 == old(context).output.offset as int,
            n0 + tree_size(tree) <= u32::MAX,
            ks0 == tree.kids@,
            pr == RawIndirectReference(n0 as i64, 0),
            self_ref.raw == pr,
        decreases kids@.len(),
    {
        proof {
            assert(ks0.skip(j).len() > 0);
            assert(ks0.skip(j)[0] == ks0[j]);
            assert(ks0.take(j + 1) =~= ks0.take(j).push(ks0[j]));
            lemma_kids_size_snoc(ks0.take(j), ks0[j]);
            lemma_kids_size_split(ks0, j + 1);
            lemma_kids_size_ge_len(ks0.take(j));
        }
        let kid = kids.remove(0);
        proof {
            assert(kids@ =~= ks0.skip(j + 1));
        }
        let ghost base_j = n0 + 1 + kids_size(ks0.take(j));
        let ghost off_j = off0 + kids_bytes(ks0.take(j), n0 + 1, pr).len();
        match kid {
            PageTreeNode::Page(page) => {
                let mut page = page;
                page.set_parent(self_ref);
                let ghost page_snap = page;
                let r = context.write_object(page);
                kid_refs.push(r.raw());
                proof {
                    assert(page_bytes(page_snap) == page_body_bytes(page_snap, Some(pr)));
                    assert(page_body_bytes(page_snap, Some(pr)) == page_body_bytes(
                        ks0[j]->Page_0,
                        Some(pr),
                    ));
                    assert(node_bytes(ks0[j], base_j, pr) == obj_block(
                        base_j,
                        0,
                        page_body_bytes(ks0[j]->Page_0, Some(pr)),
                    ));
                    lemma_kids_bytes_snoc(ks0.take(j), ks0[j], n0 + 1, pr);
                    lemma_kids_xref_snoc(ks0.take(j), ks0[j], n0 + 1, pr, off0);
                    lemma_kid_raws_snoc(ks0.take(j), ks0[j], n0 + 1);
                    assert(context.output.inner@ =~= old(context).output.inner@ + kids_bytes(
                        ks0.take(j + 1),
                        n0 + 1,
                        pr,
                    ));
                    assert(context.crossref@ =~= old(context).crossref@.push((0u64, 0u32))
                        + kids_xref(ks0.take(j + 1), n0 + 1, pr, off0));
                    assert(kid_refs@ =~= kid_raws(ks0.take(j + 1), n0 + 1));
                    j = j + 1;
                }
            },
            PageTreeNode::Tree(sub) => {
                proof {
                    assert(node_size(ks0[j]) == tree_size(sub));
                }
                let r = write_subtree(sub, Some(self_ref), context);
                kid_refs.push(r.raw());
                proof {
                    assert(node_bytes(ks0[j], base_j, pr) == tree_bytes(sub, base_j, Some(pr)));
                    assert(node_xref(ks0[j], base_j, pr, off_j) == tree_xref(
                        sub,
                        base_j,
                        off_j,
                        Some(pr),
                    ));
                    lemma_kids_bytes_snoc(ks0.take(j), ks0[j], n0 + 1, pr);
                    lemma_kids_xref_snoc(ks0.take(j), ks0[j], n0 + 1, pr, off0);
                    lemma_kid_raws_snoc(ks0.take(j), ks0[j], n0 + 1);
                    assert(context.output.inner@ =~= old(context).output.inner@ + kids_bytes(
                        ks0.take(j + 1),
                        n0 + 1,
                        pr,
                    ));
                    assert(context.crossref@ =~= old(context).crossref@.push((0u64, 0u32))
                        + kids_xref(ks0.take(j + 1), n0 + 1, pr, off0));
                    assert(kid_refs@ =~= kid_raws(ks0.take(j + 1), n0 + 1));
                    j = j + 1;
                }
            },
        }
    }
    proof {
        assert(ks0.skip(j).len() == 0);
        assert(j == ks0.len());
        assert(ks0.take(j) =~= ks0);
        lemma_kids_size_ge_len(ks0);
    }
    let count = kid_refs.len() as i64;
    let node = PagesNode { count, parent, kids: kid_refs };
    let node_ref: IndirectReference<PagesNode> = self_ref.convert();
    context.commit(node_ref, &node);
    proof {
        let ghost pre = old(context).crossref@.push((0u64, 0u32)) + kids_xref(ks0, n0 + 1, pr, off0);
        assert(pre[n0] == (0u64, 0u32));
        assert(context.crossref@ =~= old(context).crossref@ + tree_xref(
            tree,
            n0,
            off0,
            spec_opt_raw(parent),
        ));
        assert(context.output.inner@ =~= old(context).output.inner@ + tree_bytes(
            tree,
            n0,
            spec_opt_raw(parent),
        ));
    }
    self_ref
}

impl Pages {
    /// Flattens the tree into indirect objects: every node becomes exactly
    /// one object, children are serialized before their node, each child
    /// carries a parent reference to the node's pre-reserved identity, and
    /// the node's count field holds its number of immediate children.
    pub fn write_to_context(self, context: &mut DocumentContext) -> (r: IndirectReference<Pages>)
        requires
            old(context).wf(),
            old(context).crossref@.len() + tree_size(self) <= u32::MAX,
        ensures
            final(context).wf(),
            r.raw.0 as int == old(context).crossref@.len(),
            r.raw.1 == 0,
            final(context).crossref@ == old(context).crossref@ + tree_xref(
                self,
                old(context).crossref@.len() as int,
                old(context).output.offset as int,
                spec_opt_raw(self.parent),
            ),
            final(context).crossref@.len() == old(context).crossref@.len() + tree_size(self),
            final(context).output.inner@ == old(context).output.inner@ + tree_bytes(
                self,
                old(context).crossref@.len() as int,
                spec_opt_raw(self.parent),
            ),
            final(context).version == old(context).version,
            final(context).document_catalog == old(context).document_catalog,
            final(context).page_tree == old(context).page_tree,
            final(context).document_info == old(context).document_info,
    {
        let parent = self.parent;
        write_subtree(self, parent, context)
    }
}

/// A page's bounding box as four corners.
#[derive(Debug, Copy, Clone, PartialEq, Eq, Structural)]
pub struct MediaBox {
    /// The left edge.
    pub xmin: Pt,
    /// The bottom edge.
    pub ymin: Pt,
    /// The right edge.
    pub xmax: Pt,
    /// The top edge.
    pub ymax: Pt,
}

impl MediaBox {
    /// A box with the given corners.
    pub fn new(xmin: Pt, ymin: Pt, xmax: Pt, ymax: Pt) -> (r: Self)
        ensures
            r == (MediaBox { xmin, ymin, xmax, ymax }),
    {
        MediaBox { xmin, ymin, xmax, ymax }
    }

    /// A DIN A4 page, in hundredths of a point.
    pub fn paper_a4() -> (r: Self)
        ensures
            r.xmin.0.hundredths == 0,
            r.ymin.0.hundredths == 0,
            r.xmax.0.hundredths == 59591,
            r.ymax.0.hundredths == 84275,
    {
        MediaBox {
            xmin: Pt(Real { hundredths: 0 }),
            ymin: Pt(Real { hundredths: 0 }),
            xmax: Pt(Real { hundredths: 59591 }),
            ymax: Pt(Real { hundredths: 84275 }),
        }
    }

    /// The corners as `[xmin, ymin, xmax, ymax]`, in specifications.
    pub open spec fn spec_as_array(self) -> Seq<Pt> {
        seq![self.xmin, self.ymin, self.xmax, self.ymax]
    }

    /// The corners as `[xmin, ymin, xmax, ymax]`.
    pub fn as_array(self) -> (r: [Pt; 4])
        ensures
            r@ == self.spec_as_array(),
    {
        let r = [self.xmin, self.ymin, self.xmax, self.ymax];
        assert(r@ =~= self.spec_as_array());
        r
    }
}

} // verus!
