use vstd::prelude::*;

verus! {

/// Helps manage selection from a non-empty list. The selection wraps around at both ends.
#[derive(Debug, PartialEq, Eq)]
pub struct Selector<T> {
    items: Vec<T>,
    selected: usize,
}

impl<T> Selector<T> {
    #[verifier::type_invariant]
    spec fn inv(self) -> bool {
        &&& 0 < self.items.len() <= isize::MAX
        &&& self.selected < self.items.len()
    }

    /// The items to select from.
    pub closed spec fn items(self) -> Seq<T> {
        self.items@
    }

    /// The index of the selected item.
    pub closed spec fn selected_index(self) -> int {
        self.selected as int
    }

    /// Create a new selector that points to the first item of `items`. `items` must not be empty.
    pub fn new(items: Vec<T>) -> (r: Selector<T>)
        requires
            0 < items@.len() <= isize::MAX,
        ensures
            r.items() == items@,
            r.selected_index() == 0,
    {
        Selector { items, selected: 0 }
    }

    /// The number of items.
    pub fn len(&self) -> (r: usize)
        ensures
            r == self.items().len(),
            0 < r <= isize::MAX,
    {
        proof {
            use_type_invariant(self);
        }
        self.items.len()
    }

    /// All items, each paired with `true` exactly when it is the selected item.
    pub fn iter(&self) -> (r: Vec<(bool, &T)>)
        ensures
            r@.len() == self.items().len(),
            forall|i: int|
                0 <= i < r@.len() ==> #[trigger] r@[i] == ((i == self.selected_index()), &self.items()[i]),
    {
        proof {
            use_type_invariant(self);
        }
        let mut out: Vec<(bool, &T)> = Vec::with_capacity(self.items.len());
        let mut idx: usize = 0;
        while idx < self.items.len()
            invariant
                idx <= self.items@.len(),
                out@.len() == idx,
                forall|i: int|
                    0 <= i < idx ==> #[trigger] out@[i] == ((i == self.selected as int), &self.items@[i]),
            decreases self.items@.len() - idx,
        {
            out.push((idx == self.selected, &self.items[idx]));
            idx = idx + 1;
        }
        out
    }

    /// Return a reference to the currently selected item.
    pub fn selected(&self) -> (r: &T)
        ensures
            *r == self.items()[self.selected_index()],
            0 <= self.selected_index() < self.items().len(),
    {
        proof {
            use_type_invariant(self);
        }
        &self.items[self.selected]
    }

    /// Advance the selection by `pos`. If `pos` is negative, then the selection moves backwards.
    /// The selection wraps around.
    pub fn select_by(&mut self, pos: isize)
        ensures
            final(self).items() == old(self).items(),
            final(self).selected_index() == (old(self).selected_index() + pos) % (old(
                self,
            ).items().len() as int),
        decreases (if pos < 0 { -pos } else { 0 }),
    {
        proof {
            use_type_invariant(&*self);
        }
        let len = self.items.len();
        if pos < 0 {
            let next = pos + len as isize;
            self.select_by(next);
            proof {
                let l = len as int;
                let s = old(self).selected as int;
                vstd::arithmetic::div_mod::lemma_mod_add_multiples_vanish(s + pos, l);
                assert(s + next == (s + pos) + l);
            }
        } else {
            self.selected = (self.selected + pos as usize) % len;
        }
    }
}

} // verus!
