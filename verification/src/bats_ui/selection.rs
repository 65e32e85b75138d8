use vstd::prelude::*;

verus! {

/// Manage selection of menu items.
#[derive(Copy, Clone, Debug, Default, PartialEq, Eq, Structural)]
pub struct MenuSelection {
    /// The selected index.
    pub selected_idx: usize,
}

impl MenuSelection {
    /// Get the currently selected item from `items`, or `None` if the selected index is past the
    /// end of `items`.
    pub fn selection<'a, T>(&self, items: &'a [T]) -> (r: Option<&'a T>)
        ensures
            self.selected_idx < items@.len() ==> r == Some(&items@[self.selected_idx as int]),
            self.selected_idx >= items@.len() ==> r == None::<&T>,
    {
        if self.selected_idx < items.len() {
            Some(&items[self.selected_idx])
        } else {
            None
        }
    }

    /// Move the selection by `n`. If `n` is negative, the selection will move backwards. The
    /// selection wraps around at both ends of the `items_count` items. The selected index is
    /// taken as a signed number (an index past `isize::MAX` counts as negative).
    pub fn move_selection(&mut self, n: isize, items_count: usize)
        requires
            0 < items_count <= isize::MAX,
            isize::MIN <= (old(self).selected_idx as isize) + n <= isize::MAX,
        ensures
            final(self).selected_idx == ((old(self).selected_idx as isize) + n) % (
            items_count as int),
            final(self).selected_idx < items_count,
    {
        let items_count = items_count as isize;
        let total = self.selected_idx as isize + n;
        let idx = total % items_count;
        assert(total >= 0 ==> idx == (total as int) % (items_count as int));
        assert(total < 0 ==> idx == -((-(total as int)) % (items_count as int)));
        proof {
            let t = total as int;
            let c = items_count as int;
            if t < 0 {
                let q = (-t) / c;
                let r = (-t) % c;
                vstd::arithmetic::div_mod::lemma_fundamental_div_mod(-t, c);
                assert(t == (-q - 1) * c + (c - r) && t == (-q) * c - r) by (nonlinear_arith)
                    requires
                        -t == c * q + r || -t == q * c + r,
                        -t == (-t) / c * c + (-t) % c || -t == c * ((-t) / c) + (-t) % c,
                        q == (-t) / c,
                        r == (-t) % c,
                ;
                if r > 0 {
                    vstd::arithmetic::div_mod::lemma_fundamental_div_mod_converse(t, c, -q - 1, c - r);
                } else {
                    vstd::arithmetic::div_mod::lemma_fundamental_div_mod_converse(t, c, -q, 0);
                }
            }
        }
        if idx < 0 {
            self.selected_idx = (idx + items_count) as usize;
        } else {
            self.selected_idx = idx as usize;
        }
    }
}

} // verus!
verus! {

/// Moving the selection by `n` and then by `-n` returns to the item that was selected, for any
/// valid selected index.
pub proof fn lemma_move_selection_undo(selected: int, n: int, items_count: int)
    requires
        0 <= selected < items_count,
    ensures
        (((selected + n) % items_count) + (-n)) % items_count == selected,
{
    let m = (selected + n) % items_count;
    vstd::arithmetic::div_mod::lemma_fundamental_div_mod(selected + n, items_count);
    let q = (selected + n) / items_count;
    assert(m + (-n) == selected - q * items_count) by (nonlinear_arith)
        requires
            selected + n == items_count * q + m,
    ;
    vstd::arithmetic::div_mod::lemma_mod_sub_multiples_vanish(selected, items_count);
    assert((selected - q * items_count) % items_count == selected % items_count) by {
        vstd::arithmetic::div_mod::lemma_mod_multiples_vanish(-q, selected, items_count);
        assert(selected - q * items_count == items_count * (-q) + selected) by (nonlinear_arith);
    }
    vstd::arithmetic::div_mod::lemma_small_mod(selected as nat, items_count as nat);
}

} // verus!
