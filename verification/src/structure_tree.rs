//! The logical structure tree: a root, structure elements with standard
//! types, and parent links.

use vstd::prelude::*;

use crate::object::{
    arr_close, arr_open, dict_close, dict_open, key_value_bytes, kw_null, name_bytes, ref_bytes,
    Formatter, IndirectReference, PdfFormat, RawIndirectReference, LANGLE, LBRACKET, NL, RANGLE,
    RBRACKET, SPACE,
};
use crate::pagetree::Page;

verus! {

/// The root of the structure tree.
#[derive(Debug)]
pub struct StructTreeRoot {
    /// The root's children: inline elements or references to them.
    pub k: Vec<StructureChild>,
}

/// The standard structure types.
#[derive(Debug, Copy, Clone, PartialEq, Eq, Structural)]
pub enum StandardStructureType {
    /// A whole document.
    Document,
    /// A large division of a document.
    Part,
    /// A self-contained article.
    Art,
    /// A section.
    Sect,
    /// A generic division.
    Div,
    /// A block quotation.
    BlockQuote,
    /// A caption of a figure or table.
    Caption,
    /// A table of contents.
    TOC,
    /// One item of a table of contents.
    TOCI,
    /// An index.
    Index,
    /// Content without its own structural meaning.
    NonStruct,
    /// Content private to the producer.
    Private,
    /// A paragraph.
    P,
    /// A heading.
    H,
    /// A first-level heading.
    H1,
    /// A second-level heading.
    H2,
    /// A third-level heading.
    H3,
    /// A fourth-level heading.
    H4,
    /// A fifth-level heading.
    H5,
    /// A sixth-level heading.
    H6,
    /// A list.
    L,
    /// One item of a list.
    LI,
    /// A list item's label.
    Lbl,
    /// A list item's body.
    LBody,
    /// A table.
    Table,
    /// A table row.
    TR,
    /// A table header cell.
    TH,
    /// A table data cell.
    TD,
    /// A group of table header rows.
    THead,
    /// A group of table body rows.
    TBody,
    /// A group of table footer rows.
    TFoot,
}

/// The name a standard structure type renders as.
pub open spec fn structure_type_name(t: StandardStructureType) -> Seq<char> {
    match t {
        StandardStructureType::Document => "Document"@,
        StandardStructureType::Part => "Part"@,
        StandardStructureType::Art => "Art"@,
        StandardStructureType::Sect => "Sect"@,
        StandardStructureType::Div => "Div"@,
        StandardStructureType::BlockQuote => "BlockQuote"@,
        StandardStructureType::Caption => "Caption"@,
        StandardStructureType::TOC => "TOC"@,
        StandardStructureType::TOCI => "TOCI"@,
        StandardStructureType::Index => "Index"@,
        StandardStructureType::NonStruct => "NonStruct"@,
        StandardStructureType::Private => "Private"@,
        StandardStructureType::P => "P"@,
        StandardStructureType::H => "H"@,
        StandardStructureType::H1 => "H1"@,
        StandardStructureType::H2 => "H2"@,
        StandardStructureType::H3 => "H3"@,
        StandardStructureType::H4 => "H4"@,
        StandardStructureType::H5 => "H5"@,
        StandardStructureType::H6 => "H6"@,
        StandardStructureType::L => "L"@,
        StandardStructureType::LI => "LI"@,
        StandardStructureType::Lbl => "Lbl"@,
        StandardStructureType::LBody => "LBody"@,
        StandardStructureType::Table => "Table"@,
        StandardStructureType::TR => "TR"@,
        StandardStructureType::TH => "TH"@,
        StandardStructureType::TD => "TD"@,
        StandardStructureType::THead => "THead"@,
        StandardStructureType::TBody => "TBody"@,
        StandardStructureType::TFoot => "TFoot"@,
    }
}

impl PdfFormat for StandardStructureType {
    open spec fn rendered(&self) -> Seq<u8> {
        name_bytes(structure_type_name(*self))
    }

    fn write(&self, f: &mut Formatter) {
        match self {
            StandardStructureType::Document => f.name("Document"),
            StandardStructureType::Part => f.name("Part"),
            StandardStructureType::Art => f.name("Art"),
            StandardStructureType::Sect => f.name("Sect"),
            StandardStructureType::Div => f.name("Div"),
            StandardStructureType::BlockQuote => f.name("BlockQuote"),
            StandardStructureType::Caption => f.name("Caption"),
            StandardStructureType::TOC => f.name("TOC"),
            StandardStructureType::TOCI => f.name("TOCI"),
            StandardStructureType::Index => f.name("Index"),
            StandardStructureType::NonStruct => f.name("NonStruct"),
            StandardStructureType::Private => f.name("Private"),
            StandardStructureType::P => f.name("P"),
            StandardStructureType::H => f.name("H"),
            StandardStructureType::H1 => f.name("H1"),
            StandardStructureType::H2 => f.name("H2"),
            StandardStructureType::H3 => f.name("H3"),
            StandardStructureType::H4 => f.name("H4"),
            StandardStructureType::H5 => f.name("H5"),
            StandardStructureType::H6 => f.name("H6"),
            StandardStructureType::L => f.name("L"),
            StandardStructureType::LI => f.name("LI"),
            StandardStructureType::Lbl => f.name("Lbl"),
            StandardStructureType::LBody => f.name("LBody"),
            StandardStructureType::Table => f.name("Table"),
            StandardStructureType::TR => f.name("TR"),
            StandardStructureType::TH => f.name("TH"),
            StandardStructureType::TD => f.name("TD"),
            StandardStructureType::THead => f.name("THead"),
            StandardStructureType::TBody => f.name("TBody"),
            StandardStructureType::TFoot => f.name("TFoot"),
        }
    }
}

/// The parent of a structure element: the tree root or another element.
#[derive(Debug)]
pub enum StructureParent {
    /// The element hangs directly off the root.
    Root(IndirectReference<StructTreeRoot>),
    /// The element hangs off another element.
    Elem(IndirectReference<StructElem>),
}

impl PdfFormat for StructureParent {
    open spec fn rendered(&self) -> Seq<u8> {
        match self {
            StructureParent::Root(r) => ref_bytes(r.raw.0 as int, r.raw.1 as int),
            StructureParent::Elem(r) => ref_bytes(r.raw.0 as int, r.raw.1 as int),
        }
    }

    fn write(&self, f: &mut Formatter) {
        match self {
            StructureParent::Root(r) => r.write(f),
            StructureParent::Elem(r) => r.write(f),
        }
    }
}

/// One child of a structure element or of the root: an element in place, or
/// a reference to one written elsewhere.
#[derive(Debug)]
pub enum StructureChild {
    /// An element embedded in place.
    Direct(StructElem),
    /// A reference to an element written as its own object.
    Indirect(RawIndirectReference),
}

/// One element of the structure tree.
#[derive(Debug)]
pub struct StructElem {
    /// The element's structure type.
    pub s: StandardStructureType,
    /// The element's parent.
    pub p: StructureParent,
    /// An identifier, omitted when empty.
    pub id: Vec<u8>,
    /// The page the element's content lies on.
    pub pg: Option<IndirectReference<Page>>,
    /// The children.
    pub k: Vec<StructureChild>,
}

/// The rendering of one structure element.
pub open spec fn struct_elem_bytes(e: StructElem) -> Seq<u8>
    decreases e, 1int,
{
    dict_open() + key_value_bytes(name_bytes("Type"@), name_bytes("StructElem"@))
        + key_value_bytes(name_bytes("S"@), e.s.rendered()) + key_value_bytes(
        name_bytes("P"@),
        e.p.rendered(),
    ) + (if e.id@.len() == 0 {
        Seq::<u8>::empty()
    } else {
        key_value_bytes(name_bytes("ID"@), crate::object::str_lit_simple(e.id@))
    }) + key_value_bytes(name_bytes("Pg"@), match e.pg {
        Some(r) => ref_bytes(r.raw.0 as int, r.raw.1 as int),
        None => kw_null(),
    }) + key_value_bytes(
        name_bytes("K"@),
        arr_open() + struct_children_bytes(e.k@) + arr_close(),
    ) + dict_close()
}

/// The rendering of one child.
pub open spec fn struct_child_bytes(c: StructureChild) -> Seq<u8>
    decreases c, 2int,
{
    match c {
        StructureChild::Direct(e) => struct_elem_bytes(e),
        StructureChild::Indirect(r) => ref_bytes(r.0 as int, r.1 as int),
    }
}

/// The renderings of a child list, each followed by a space.
pub open spec fn struct_children_bytes(cs: Seq<StructureChild>) -> Seq<u8>
    decreases cs, 0int,
{
    if cs.len() == 0 {
        Seq::empty()
    } else {
        struct_child_bytes(cs[0]) + seq![SPACE] + struct_children_bytes(cs.drop_first())
    }
}

/// Appending a child extends the rendering by that child and a space.
pub proof fn lemma_struct_children_snoc(cs: Seq<StructureChild>, c: StructureChild)
    ensures
        struct_children_bytes(cs.push(c)) == struct_children_bytes(cs) + struct_child_bytes(c)
            + seq![SPACE],
    decreases cs.len(),
{
    if cs.len() == 0 {
        assert(cs.push(c).drop_first() =~= cs);
        assert(struct_children_bytes(cs.push(c)) =~= struct_children_bytes(cs)
            + struct_child_bytes(c) + seq![SPACE]);
    } else {
        assert(cs.push(c).drop_first() =~= cs.drop_first().push(c));
        lemma_struct_children_snoc(cs.drop_first(), c);
        assert(struct_children_bytes(cs.push(c)) =~= struct_children_bytes(cs)
            + struct_child_bytes(c) + seq![SPACE]);
    }
}

/// Appends the rendering of a child list between array delimiters.
fn write_struct_children(cs: &Vec<StructureChild>, f: &mut Formatter)
    ensures
        final(f)@ == old(f)@ + arr_open() + struct_children_bytes(cs@) + arr_close(),
    decreases cs@, 3int,
{
    f.byte(LBRACKET);
    f.byte(SPACE);
    let ghost base = f@;
    assert(f@ =~= base + struct_children_bytes(cs@.take(0)));
    let mut i: usize = 0;
    while i < cs.len()
        invariant
            f@ == base + struct_children_bytes(cs@.take(i as int)),
            i <= cs@.len(),
        decreases cs@.len() - i,
    {
        proof {
            assert(decreases_to!(cs@ => cs@[i as int]));
        }
        write_struct_child(&cs[i], f);
        f.byte(SPACE);
        proof {
            lemma_struct_children_snoc(cs@.take(i as int), cs@[i as int]);
            assert(cs@.take(i + 1) =~= cs@.take(i as int).push(cs@[i as int]));
            assert(f@ =~= base + struct_children_bytes(cs@.take(i + 1)));
        }
        i = i + 1;
    }
    assert(cs@.take(cs@.len() as int) =~= cs@);
    f.byte(RBRACKET);
    assert(f@ =~= old(f)@ + arr_open() + struct_children_bytes(cs@) + arr_close());
}

/// Appends the rendering of one child.
fn write_struct_child(c: &StructureChild, f: &mut Formatter)
    ensures
        final(f)@ == old(f)@ + struct_child_bytes(*c),
    decreases *c, 2int,
{
    match c {
        StructureChild::Direct(e) => {
            proof {
                assert(decreases_to!(*c => c->Direct_0));
            }
            write_struct_elem(e, f);
        },
        StructureChild::Indirect(r) => {
            f.dec_i64(r.0);
            f.byte(SPACE);
            f.dec_i64(r.1);
            f.byte(SPACE);
            f.byte(82);
            assert(f@ =~= old(f)@ + struct_child_bytes(*c));
        },
    }
}

/// Appends an element's leading lines: type, structure type, and parent.
fn write_struct_elem_head(e: &StructElem, f: &mut Formatter)
    ensures
        final(f)@ == old(f)@ + dict_open() + key_value_bytes(
            name_bytes("Type"@),
            name_bytes("StructElem"@),
        ) + key_value_bytes(name_bytes("S"@), e.s.rendered()) + key_value_bytes(
            name_bytes("P"@),
            e.p.rendered(),
        ),
{
    f.byte(LANGLE);
    f.byte(LANGLE);
    f.byte(SPACE);
    f.kv_name("Type", "StructElem");
    f.kv_line("S", &e.s);
    f.kv_line("P", &e.p);
    assert(f@ =~= old(f)@ + dict_open() + key_value_bytes(
        name_bytes("Type"@),
        name_bytes("StructElem"@),
    ) + key_value_bytes(name_bytes("S"@), e.s.rendered()) + key_value_bytes(
        name_bytes("P"@),
        e.p.rendered(),
    ));
}

/// Appends an element's identifier and page lines.
fn write_struct_elem_mid(e: &StructElem, f: &mut Formatter)
    ensures
        final(f)@ == old(f)@ + (if e.id@.len() == 0 {
            Seq::<u8>::empty()
        } else {
            key_value_bytes(name_bytes("ID"@), crate::object::str_lit_simple(e.id@))
        }) + key_value_bytes(name_bytes("Pg"@), match e.pg {
            Some(r) => ref_bytes(r.raw.0 as int, r.raw.1 as int),
            None => kw_null(),
        }),
{
    let ghost g0 = f@;
    if e.id.len() > 0 {
        f.name("ID");
        f.byte(SPACE);
        f.string_simple(e.id.as_slice());
        f.byte(NL);
    }
    assert(f@ =~= g0 + (if e.id@.len() == 0 {
        Seq::<u8>::empty()
    } else {
        key_value_bytes(name_bytes("ID"@), crate::object::str_lit_simple(e.id@))
    }));
    let ghost g1 = f@;
    f.name("Pg");
    f.byte(SPACE);
    match &e.pg {
        Some(r) => {
            r.write(f);
        },
        None => {
            f.byte(110);
            f.byte(117);
            f.byte(108);
            f.byte(108);
        },
    }
    f.byte(NL);
    assert(f@ =~= g1 + key_value_bytes(name_bytes("Pg"@), match e.pg {
        Some(r) => ref_bytes(r.raw.0 as int, r.raw.1 as int),
        None => kw_null(),
    }));
}

/// Appends the rendering of one structure element.
#[verifier::rlimit(100)]
#[verifier::spinoff_prover]
fn write_struct_elem(e: &StructElem, f: &mut Formatter)
    ensures
        final(f)@ == old(f)@ + struct_elem_bytes(*e),
    decreases *e, 1int,
{
    write_struct_elem_head(e, f);
    write_struct_elem_mid(e, f);
    let ghost g2 = f@;
    f.name("K");
    f.byte(SPACE);
    proof {
        assert(decreases_to!(*e => e.k));
        assert(decreases_to!(e.k => e.k@));
    }
    write_struct_children(&e.k, f);
    f.byte(NL);
    assert(f@ =~= g2 + key_value_bytes(
        name_bytes("K"@),
        arr_open() + struct_children_bytes(e.k@) + arr_close(),
    ));
    f.byte(RANGLE);
    f.byte(RANGLE);
    assert(f@ =~= old(f)@ + struct_elem_bytes(*e));
}

impl PdfFormat for StructElem {
    open spec fn rendered(&self) -> Seq<u8> {
        struct_elem_bytes(*self)
    }

    fn write(&self, f: &mut Formatter) {
        write_struct_elem(self, f);
    }
}

/// The rendering of the structure tree root.
pub open spec fn struct_tree_root_bytes(t: StructTreeRoot) -> Seq<u8> {
    dict_open() + key_value_bytes(name_bytes("Type"@), name_bytes("StructTreeRoot"@))
        + key_value_bytes(
        name_bytes("K"@),
        arr_open() + struct_children_bytes(t.k@) + arr_close(),
    ) + dict_close()
}

impl PdfFormat for StructTreeRoot {
    open spec fn rendered(&self) -> Seq<u8> {
        struct_tree_root_bytes(*self)
    }

    fn write(&self, f: &mut Formatter) {
        f.byte(LANGLE);
        f.byte(LANGLE);
        f.byte(SPACE);
        f.kv_name("Type", "StructTreeRoot");
        f.name("K");
        f.byte(SPACE);
        write_struct_children(&self.k, f);
        f.byte(NL);
        f.byte(RANGLE);
        f.byte(RANGLE);
        assert(f@ =~= old(f)@ + struct_tree_root_bytes(*self));
    }
}

} // verus!
