//! Selection state machine: a fixed record set and one selected row that
//! wraps around at both ends and is a no-op on an empty set.

use vstd::prelude::*;

use crate::product::Product;

verus! {

/// Row that follows `i` when stepping forward through `len` rows: the last row
/// wraps to the first.
pub open spec fn advance_index(i: int, len: int) -> int {
    if i >= len - 1 {
        0
    } else {
        i + 1
    }
}

/// Row that follows `i` when stepping backward through `len` rows: the first
/// row wraps to the last.
pub open spec fn retreat_index(i: int, len: int) -> int {
    if i == 0 {
        len - 1
    } else {
        i - 1
    }
}

/// Selection reached after `k` forward steps from row 0 of a table with `len`
/// rows.
pub open spec fn advance_iter(len: int, k: nat) -> int
    decreases k,
{
    if k == 0 {
        0
    } else {
        advance_index(advance_iter(len, (k - 1) as nat), len)
    }
}

/// The record set together with the single selected row.
pub struct App {
    pub products: Vec<Product>,
    pub selected: Option<usize>,
}

impl App {
    /// Well-formedness: the selection is unset exactly when the set is empty,
    /// and in bounds otherwise.
    pub open spec fn wf(self) -> bool {
        match self.selected {
            None => self.products.len() == 0,
            Some(i) => (i as int) < self.products.len() as int,
        }
    }

    /// The selection after one forward step.
    pub open spec fn sel_after_advance(self) -> Option<usize> {
        if self.products.len() == 0 {
            self.selected
        } else {
            match self.selected {
                None => Some(0usize),
                Some(i) => Some(advance_index(i as int, self.products.len() as int) as usize),
            }
        }
    }

    /// The selection after one backward step.
    pub open spec fn sel_after_retreat(self) -> Option<usize> {
        if self.products.len() == 0 {
            self.selected
        } else {
            match self.selected {
                None => Some(0usize),
                Some(i) => Some(retreat_index(i as int, self.products.len() as int) as usize),
            }
        }
    }

    /// Builds the state over a record set: row 0 is selected when the set is
    /// non-empty, nothing is selected when it is empty.
    pub fn new(products: Vec<Product>) -> (r: App)
        ensures
            r.products == products,
            r.selected == (if products.len() == 0 {
                Option::<usize>::None
            } else {
                Some(0usize)
            }),
            r.wf(),
    {
        let selected: Option<usize> = if products.len() == 0 {
            None
        } else {
            Some(0)
        };
        App { products, selected }
    }

    /// Moves the selection one row down, wrapping from the last row to the
    /// first; on an empty set nothing changes.
    pub fn next(&mut self)
        ensures
            final(self).products == old(self).products,
            final(self).selected == old(self).sel_after_advance(),
            old(self).wf() ==> final(self).wf(),
    {
        let len: usize = self.products.len();
        if len == 0 {
            return ;
        }
        let i: usize = match self.selected {
            None => 0,
            Some(i) => if i >= len - 1 {
                0
            } else {
                i + 1
            },
        };
        self.selected = Some(i);
    }

    /// Moves the selection one row up, wrapping from the first row to the
    /// last; on an empty set nothing changes.
    pub fn previous(&mut self)
        ensures
            final(self).products == old(self).products,
            final(self).selected == old(self).sel_after_retreat(),
            old(self).wf() ==> final(self).wf(),
    {
        let len: usize = self.products.len();
        if len == 0 {
            return ;
        }
        let i: usize = match self.selected {
            None => 0,
            Some(i) => if i == 0 {
                len - 1
            } else {
                i - 1
            },
        };
        self.selected = Some(i);
    }
}

/// Law: one forward step then one backward step, or the other way round,
/// returns any in-bounds selection to itself.
pub proof fn lemma_advance_retreat_round_trip(i: int, len: int)
    requires
        0 < len,
        0 <= i < len,
    ensures
        retreat_index(advance_index(i, len), len) == i,
        advance_index(retreat_index(i, len), len) == i,
{
}

/// Law: stepping backward from the first row reaches the last row, and
/// stepping forward from the last row reaches the first.
pub proof fn lemma_wrap_at_ends(len: int)
    requires
        0 < len,
    ensures
        retreat_index(0, len) == len - 1,
        advance_index(len - 1, len) == 0,
{
}

/// After `k <= len` forward steps from row 0 the selection is row `k`, except
/// that the `len`-th step is back at row 0.
pub proof fn lemma_advance_iter_value(len: int, k: nat)
    requires
        0 < len,
        k <= len,
    ensures
        advance_iter(len, k) == if k == len {
            0int
        } else {
            k as int
        },
    decreases k,
{
    if k > 0 {
        lemma_advance_iter_value(len, (k - 1) as nat);
    }
}

/// Law: a full cycle of forward steps from row 0 visits rows 1 through
/// `len - 1` in ascending order, each exactly once, and the `len`-th step
/// returns to row 0.
pub proof fn lemma_advance_full_cycle(len: int)
    requires
        0 < len,
    ensures
        advance_iter(len, len as nat) == 0,
        forall|k: nat| 0 < k < len ==> advance_iter(len, k) == k,
{
    lemma_advance_iter_value(len, len as nat);
    assert forall|k: nat| 0 < k < len implies advance_iter(len, k) == k by {
        lemma_advance_iter_value(len, k);
    };
}

} // verus!
