use vstd::prelude::*;

verus! {

/// The position after `i` in a list of `n`, the first after the last.
pub open spec fn next_index(i: int, n: int) -> int {
    if i + 1 == n {
        0
    } else {
        i + 1
    }
}

/// The position before `i` in a list of `n`, the last before the first.
pub open spec fn prev_index(i: int, n: int) -> int {
    if i == 0 {
        n - 1
    } else {
        i - 1
    }
}

/// An ordered, read-only sequence of items with one selected position that
/// wraps around at both ends.
pub struct StatefulList<T> {
    items: Vec<T>,
    selected: usize,
}

impl<T> StatefulList<T> {
    /// The items, in order.
    pub closed spec fn entries(&self) -> Seq<T> {
        self.items@
    }

    /// The position of the selected item.
    pub closed spec fn index(&self) -> int {
        self.selected as int
    }

    /// The list is non-empty and the selection lies inside it.
    pub open spec fn wf(&self) -> bool {
        0 <= self.index() < self.entries().len()
    }

    /// The item under the selection.
    pub open spec fn spec_selected(&self) -> T {
        self.entries()[self.index()]
    }

    /// A list over `items` with the first one selected.
    pub fn with_items(items: Vec<T>) -> (r: StatefulList<T>)
        requires
            items@.len() > 0,
        ensures
            r.wf(),
            r.entries() == items@,
            r.index() == 0,
    {
        StatefulList { items, selected: 0 }
    }

    /// Selects the following item; after the last one, the first.
    pub fn next(&mut self)
        requires
            old(self).wf(),
        ensures
            final(self).wf(),
            final(self).entries() == old(self).entries(),
            final(self).index() == next_index(old(self).index(), old(self).entries().len() as int),
    {
        let n = self.items.len();
        if self.selected + 1 == n {
            self.selected = 0;
        } else {
            self.selected = self.selected + 1;
        }
    }

    /// Selects the preceding item; before the first one, the last.
    pub fn previous(&mut self)
        requires
            old(self).wf(),
        ensures
            final(self).wf(),
            final(self).entries() == old(self).entries(),
            final(self).index() == prev_index(old(self).index(), old(self).entries().len() as int),
    {
        if self.selected == 0 {
            self.selected = self.items.len() - 1;
        } else {
            self.selected = self.selected - 1;
        }
    }

    /// The selected item.
    pub fn selected(&self) -> (r: &T)
        requires
            self.wf(),
        ensures
            *r == self.spec_selected(),
    {
        &self.items[self.selected]
    }

    /// The position of the selected item.
    pub fn selected_index(&self) -> (r: usize)
        ensures
            r as int == self.index(),
    {
        self.selected
    }

    /// All items, in order.
    pub fn items(&self) -> (r: &Vec<T>)
        ensures
            r@ == self.entries(),
    {
        &self.items
    }
}

} // verus!
