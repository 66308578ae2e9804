use vstd::prelude::*;

verus! {

/// A list of items with an optional cursor that cycles over them.
pub struct StatefulList<T> {
    items: Vec<T>,
    selected: Option<usize>,
}

/// The cursor one step forward from `sel` over `len` items, wrapping to the first.
pub open spec fn next_cursor(sel: Option<usize>, len: nat) -> Option<usize> {
    if len == 0 {
        sel
    } else {
        match sel {
            Some(i) => if i + 1 < len { Some((i + 1) as usize) } else { Some(0usize) },
            None => Some(0usize),
        }
    }
}

/// The cursor one step back from `sel` over `len` items, wrapping to the last.
pub open spec fn previous_cursor(sel: Option<usize>, len: nat) -> Option<usize> {
    if len == 0 {
        sel
    } else {
        match sel {
            Some(i) => if i == 0 || i >= len { Some((len - 1) as usize) } else { Some((i - 1) as usize) },
            None => Some(0usize),
        }
    }
}

impl<T> StatefulList<T> {
    pub closed spec fn items_view(&self) -> Seq<T> {
        self.items@
    }

    pub closed spec fn cursor(&self) -> Option<usize> {
        self.selected
    }

    /// The cursor, when present, points at an item.
    pub open spec fn wf(&self) -> bool {
        match self.cursor() {
            Some(i) => i < self.items_view().len(),
            None => true,
        }
    }

    /// An empty list with no cursor.
    pub fn new() -> (r: Self)
        ensures
            r.items_view().len() == 0,
            r.cursor() is None,
            r.wf(),
    {
        StatefulList { items: Vec::new(), selected: None }
    }

    /// The given items, with no cursor.
    pub fn with_items(items: Vec<T>) -> (r: Self)
        ensures
            r.items_view() == items@,
            r.cursor() is None,
            r.wf(),
    {
        StatefulList { items, selected: None }
    }

    pub fn items(&self) -> (r: &Vec<T>)
        ensures
            r@ == self.items_view(),
    {
        &self.items
    }

    pub fn selected(&self) -> (r: Option<usize>)
        ensures
            r == self.cursor(),
    {
        self.selected
    }

    pub fn len(&self) -> (r: usize)
        ensures
            r == self.items_view().len(),
    {
        self.items.len()
    }

    /// Moves the cursor forward, wrapping from the last item to the first;
    /// with no cursor it goes to the first item. Nothing happens on an empty list.
    pub fn next(&mut self)
        requires
            old(self).wf(),
        ensures
            final(self).wf(),
            final(self).items_view() == old(self).items_view(),
            final(self).cursor() == next_cursor(old(self).cursor(), old(self).items_view().len()),
    {
        let len = self.items.len();
        if len == 0 {
            return;
        }
        let i: usize = match self.selected {
            Some(i) => if i + 1 < len { i + 1 } else { 0 },
            None => 0,
        };
        self.selected = Some(i);
    }

    /// Moves the cursor back, wrapping from the first item to the last;
    /// with no cursor it goes to the first item. Nothing happens on an empty list.
    pub fn previous(&mut self)
        requires
            old(self).wf(),
        ensures
            final(self).wf(),
            final(self).items_view() == old(self).items_view(),
            final(self).cursor() == previous_cursor(old(self).cursor(), old(self).items_view().len()),
    {
        let len = self.items.len();
        if len == 0 {
            return;
        }
        let i: usize = match self.selected {
            Some(i) => if i == 0 || i >= len { len - 1 } else { i - 1 },
            None => 0,
        };
        self.selected = Some(i);
    }

    /// Clears the cursor.
    pub fn unselect(&mut self)
        ensures
            final(self).wf(),
            final(self).items_view() == old(self).items_view(),
            final(self).cursor() is None,
    {
        self.selected = None;
    }

    /// Puts the cursor on item `i`.
    pub fn select(&mut self, i: usize)
        requires
            i < old(self).items_view().len(),
        ensures
            final(self).wf(),
            final(self).items_view() == old(self).items_view(),
            final(self).cursor() == Some(i),
    {
        self.selected = Some(i);
    }

    /// Removes item `index`; a cursor left past the end moves to the new last
    /// item, or goes away when the list is empty.
    pub fn delete_item(&mut self, index: usize)
        requires
            old(self).wf(),
            index < old(self).items_view().len(),
        ensures
            final(self).wf(),
            final(self).items_view() == old(self).items_view().remove(index as int),
            final(self).cursor() == (match old(self).cursor() {
                Some(i) => if i < final(self).items_view().len() {
                    Some(i)
                } else if final(self).items_view().len() == 0 {
                    None
                } else {
                    Some((final(self).items_view().len() - 1) as usize)
                },
                None => None,
            }),
    {
        self.items.remove(index);
        let len = self.items.len();
        match self.selected {
            Some(i) => {
                if i >= len {
                    self.selected = if len == 0 { None } else { Some(len - 1) };
                }
            },
            None => {},
        }
    }
}

} // verus!
