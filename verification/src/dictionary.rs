//! Key-ordered mappings. Entries keep insertion order, which makes the
//! rendered output deterministic for a fixed input.

use vstd::prelude::*;

use crate::object::{dict_close, dict_open, render_entries, write_dictionary, Formatter, PdfFormat, Value};

verus! {

/// A key-ordered mapping from names to values, rendered as `<< /Key value ... >>`.
#[derive(Debug)]
pub struct Dictionary {
    /// The entries, in insertion order.
    pub entries: Vec<(String, Value)>,
}

impl View for Dictionary {
    type V = Seq<(String, Value)>;

    open spec fn view(&self) -> Seq<(String, Value)> {
        self.entries@
    }
}

impl Dictionary {
    /// An empty mapping.
    pub fn new() -> (r: Self)
        ensures
            r@ == Seq::<(String, Value)>::empty(),
    {
        let entries: Vec<(String, Value)> = Vec::new();
        assert(entries@ =~= Seq::<(String, Value)>::empty());
        Dictionary { entries }
    }

    /// Maps `key` to `value`: replaces the first entry already holding the
    /// key, and appends a new entry when none does.
    pub fn insert(&mut self, key: String, value: Value)
        ensures
            (if exists|j: int| 0 <= j < old(self)@.len() && (#[trigger] old(self)@[j]).0@ == key@ {
                exists|j: int|
                    {
                        &&& 0 <= j < old(self)@.len()
                        &&& (#[trigger] old(self)@[j]).0@ == key@
                        &&& forall|i: int| 0 <= i < j ==> (#[trigger] old(self)@[i]).0@ != key@
                        &&& final(self)@ == old(self)@.update(j, (key, value))
                    }
            } else {
                final(self)@ == old(self)@.push((key, value))
            }),
    {
        let mut i: usize = 0;
        while i < self.entries.len()
            invariant
                i <= self.entries@.len(),
                self == old(self),
                forall|k: int| 0 <= k < i ==> (#[trigger] self.entries@[k]).0@ != key@,
            decreases self.entries@.len() - i,
        {
            if self.entries[i].0 == key {
                self.entries.set(i, (key, value));
                return ;
            }
            i = i + 1;
        }
        self.entries.push((key, value));
    }

    /// The number of entries.
    pub fn len(&self) -> (r: usize)
        ensures
            r == self@.len(),
    {
        self.entries.len()
    }
}

impl Default for Dictionary {
    fn default() -> (r: Self)
        ensures
            r@ == Seq::<(String, Value)>::empty(),
    {
        Dictionary::new()
    }
}

impl PdfFormat for Dictionary {
    open spec fn rendered(&self) -> Seq<u8> {
        dict_open() + render_entries(self.entries@) + dict_close()
    }

    fn write(&self, f: &mut Formatter) {
        write_dictionary(self, f);
    }
}

} // verus!
