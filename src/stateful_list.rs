//! A list of items with an optional selection that wraps around at both ends.
use vstd::prelude::*;

verus! {

/// The selection after moving down in a list of `len` items.
pub open spec fn selection_below(selected: Option<usize>, len: nat) -> Option<usize> {
    if len == 0 {
        None
    } else {
        match selected {
            Some(i) if i + 1 < len => Some((i + 1) as usize),
            _ => Some(0),
        }
    }
}

/// The selection after moving up in a list of `len` items.
pub open spec fn selection_above(selected: Option<usize>, len: nat) -> Option<usize> {
    if len == 0 {
        None
    } else {
        match selected {
            Some(i) if 0 < i && i <= len => Some((i - 1) as usize),
            Some(i) if i == 0 => Some((len - 1) as usize),
            _ => Some(0),
        }
    }
}

/// Items shown as a list, with the index of the selected one, if any.
pub struct StatefulList<T> {
    pub selected: Option<usize>,
    pub items: Vec<T>,
}

impl<T> StatefulList<T> {
    /// A list of `items` with nothing selected.
    pub fn with_items(items: Vec<T>) -> (l: StatefulList<T>)
        ensures
            l.items@ == items@,
            l.selected is None,
    {
        StatefulList { selected: None, items }
    }

    /// Selects the item below the selected one, wrapping from the last to the
    /// first; with nothing selected, selects the first.
    pub fn next(&mut self)
        ensures
            final(self).items@ == old(self).items@,
            final(self).selected == selection_below(old(self).selected, old(self).items@.len()),
    {
        let len = self.items.len();
        self.selected = if len == 0 {
            None
        } else {
            match self.selected {
                Some(i) if i < len - 1 => Some(i + 1),
                _ => Some(0),
            }
        };
    }

    /// Selects the item above the selected one, wrapping from the first to the
    /// last; with nothing selected, selects the first.
    pub fn previous(&mut self)
        ensures
            final(self).items@ == old(self).items@,
            final(self).selected == selection_above(old(self).selected, old(self).items@.len()),
    {
        let len = self.items.len();
        self.selected = if len == 0 {
            None
        } else {
            match self.selected {
                Some(i) if 0 < i && i <= len => Some(i - 1),
                Some(i) if i == 0 => Some(len - 1),
                _ => Some(0),
            }
        };
    }

    /// The selected item's index, when it designates an item of the list.
    pub fn selected_index(&self) -> (r: Option<usize>)
        ensures
            r == (match self.selected {
                Some(i) if i < self.items@.len() => Some(i),
                _ => None::<usize>,
            }),
    {
        match self.selected {
            Some(i) if i < self.items.len() => Some(i),
            _ => None,
        }
    }
}

} // verus!
