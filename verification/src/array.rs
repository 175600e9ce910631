//! Arrays of generic values.

use vstd::prelude::*;

use crate::object::{
    arr_close, arr_open, lemma_render_items_snoc, render_items, write_value, Formatter, PdfFormat,
    Value, LBRACKET, RBRACKET, SPACE,
};

verus! {

/// A sequence of generic values, rendered `[ v1 v2 ... ]`.
pub type Array = Vec<Value>;

impl PdfFormat for Vec<Value> {
    open spec fn rendered(&self) -> Seq<u8> {
        arr_open() + render_items(self@) + arr_close()
    }

    fn write(&self, f: &mut Formatter) {
        f.byte(LBRACKET);
        f.byte(SPACE);
        let ghost base = old(f)@ + arr_open();
        assert(f@ =~= base + render_items(self@.take(0)));
        let mut i: usize = 0;
        while i < self.len()
            invariant
                f@ == base + render_items(self@.take(i as int)),
                i <= self@.len(),
            decreases self@.len() - i,
        {
            write_value(&self[i], f);
            f.byte(SPACE);
            proof {
                lemma_render_items_snoc(self@.take(i as int), self@[i as int]);
                assert(self@.take(i + 1) =~= self@.take(i as int).push(self@[i as int]));
                assert(f@ =~= base + render_items(self@.take(i + 1)));
            }
            i = i + 1;
        }
        f.byte(RBRACKET);
        assert(self@.take(self@.len() as int) =~= self@);
        assert(f@ =~= old(f)@ + self.rendered());
    }
}

} // verus!
