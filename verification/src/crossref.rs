//! The cross-reference table: an ordered sequence of (byte-offset,
//! generation) entries whose index is the object number. Its length always
//! equals the number of allocations made so far; a freshly allocated entry
//! holds offset 0 until patched when its object is serialized.

use vstd::prelude::*;

use crate::encode::{dec_digits, dec_padded};
use crate::object::{Formatter, PdfFormat, NL, SPACE};

verus! {

/// One fixed-width table line: 10-digit zero-padded offset, a space, 5-digit
/// zero-padded generation, then ` n` and CRLF.
pub open spec fn xref_entry_line(offset: int, generation: int) -> Seq<u8> {
    dec_padded(offset, 10) + seq![SPACE] + dec_padded(generation, 5) + seq![SPACE, 110, 13, 10]
}

/// The table lines of all entries, in order.
pub open spec fn xref_entry_lines(s: Seq<(u64, u32)>) -> Seq<u8>
    decreases s,
{
    if s.len() == 0 {
        Seq::empty()
    } else {
        xref_entry_line(s[0].0 as int, s[0].1 as int) + xref_entry_lines(s.drop_first())
    }
}

/// The rendering of the whole table: the keyword `xref`, a header line with
/// the total count, then one fixed-width line per entry.
pub open spec fn xref_bytes(s: Seq<(u64, u32)>) -> Seq<u8> {
    seq![120, 114, 101, 102, NL, 48, SPACE] + dec_digits(s.len() as int) + seq![NL]
        + xref_entry_lines(s)
}

/// Appending an entry extends the rendering by that entry's line.
pub proof fn lemma_xref_entry_lines_snoc(s: Seq<(u64, u32)>, e: (u64, u32))
    ensures
        xref_entry_lines(s.push(e)) == xref_entry_lines(s) + xref_entry_line(
            e.0 as int,
            e.1 as int,
        ),
    decreases s.len(),
{
    if s.len() == 0 {
        assert(s.push(e).drop_first() =~= s);
        assert(xref_entry_lines(s.push(e)) =~= xref_entry_lines(s) + xref_entry_line(
            e.0 as int,
            e.1 as int,
        ));
    } else {
        assert(s.push(e).drop_first() =~= s.drop_first().push(e));
        lemma_xref_entry_lines_snoc(s.drop_first(), e);
        assert(xref_entry_lines(s.push(e)) =~= xref_entry_lines(s) + xref_entry_line(
            e.0 as int,
            e.1 as int,
        ));
    }
}

/// The table of object identities: entry `i` holds the byte offset and
/// generation of object number `i`.
#[derive(Debug, Clone, PartialEq, Eq, Hash)]
pub struct CrossRef {
    /// The (offset, generation) entries, indexed by object number.
    pub entries: Vec<(u64, u32)>,
}

impl View for CrossRef {
    type V = Seq<(u64, u32)>;

    open spec fn view(&self) -> Seq<(u64, u32)> {
        self.entries@
    }
}

impl Default for CrossRef {
    fn default() -> (r: Self)
        ensures
            r@ == Seq::<(u64, u32)>::empty(),
    {
        let entries: Vec<(u64, u32)> = Vec::new();
        assert(entries@ =~= Seq::<(u64, u32)>::empty());
        CrossRef { entries }
    }
}

impl CrossRef {
    /// Adds an entry to the table and hands back its object number.
    pub fn add_entry(&mut self, offset: u64, generation: u32) -> (num: u32)
        requires
            old(self)@.len() < u32::MAX,
        ensures
            final(self)@ == old(self)@.push((offset, generation)),
            num == old(self)@.len(),
    {
        self.entries.push((offset, generation));
        (self.entries.len() - 1) as u32
    }

    /// Patches the offset of the entry for object number `num`; only the
    /// in-memory entry changes, never already-emitted output.
    pub fn patch(&mut self, num: usize, offset: u64)
        requires
            num < old(self)@.len(),
        ensures
            final(self)@ == old(self)@.update(num as int, (offset, old(self)@[num as int].1)),
    {
        let generation = self.entries[num].1;
        self.entries.set(num, (offset, generation));
    }

    /// The number of entries, which equals the number of allocations made.
    pub fn len(&self) -> (r: u32)
        requires
            self@.len() <= u32::MAX,
        ensures
            r == self@.len(),
    {
        self.entries.len() as u32
    }
}

impl PdfFormat for CrossRef {
    open spec fn rendered(&self) -> Seq<u8> {
        xref_bytes(self.entries@)
    }

    fn write(&self, f: &mut Formatter) {
        f.byte(120);
        f.byte(114);
        f.byte(101);
        f.byte(102);
        f.byte(NL);
        f.byte(48);
        f.byte(SPACE);
        f.dec_u64(self.entries.len() as u64);
        f.byte(NL);
        let ghost base = old(f)@ + seq![120u8, 114u8, 101u8, 102u8, NL, 48u8, SPACE]
            + dec_digits(self.entries@.len() as int) + seq![NL];
        assert(f@ =~= base + xref_entry_lines(self.entries@.take(0)));
        let mut i: usize = 0;
        while i < self.entries.len()
            invariant
                f@ == base + xref_entry_lines(self.entries@.take(i as int)),
                i <= self.entries@.len(),
            decreases self.entries@.len() - i,
        {
            let e = self.entries[i];
            f.dec_padded(e.0, 10);
            f.byte(SPACE);
            f.dec_padded(e.1 as u64, 5);
            f.byte(SPACE);
            f.byte(110);
            f.byte(13);
            f.byte(10);
            proof {
                lemma_xref_entry_lines_snoc(self.entries@.take(i as int), self.entries@[i as int]);
                assert(self.entries@.take(i + 1) =~= self.entries@.take(i as int).push(
                    self.entries@[i as int],
                ));
                assert(f@ =~= base + xref_entry_lines(self.entries@.take(i + 1)));
            }
            i = i + 1;
        }
        assert(self.entries@.take(self.entries@.len() as int) =~= self.entries@);
        assert(f@ =~= old(f)@ + self.rendered());
    }
}

} // verus!
