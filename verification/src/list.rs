//! An ordered list with a single cursor.

use vstd::prelude::*;

verus! {

/// A cursor is valid when it points at an item, or rests at 0 over an empty list.
pub open spec fn cursor_valid(len: int, cursor: int) -> bool {
    0 <= cursor && (cursor < len || (len == 0 && cursor == 0))
}

/// Where the cursor stands after moving one step towards the front: it stops at 0.
pub open spec fn previous_cursor(cursor: int) -> int {
    if cursor != 0 {
        cursor - 1
    } else {
        cursor
    }
}

/// Where the cursor stands after moving one step towards the back: it stops
/// at the last item, and does not move over an empty list.
pub open spec fn next_cursor(len: int, cursor: int) -> int {
    if cursor + 1 < len {
        cursor + 1
    } else {
        cursor
    }
}

/// Where the cursor stands once the list has shrunk to `new_len` items: it
/// stays where it was unless it would point past the new end.
pub open spec fn cursor_after_remove(new_len: int, cursor: int) -> int {
    if cursor < new_len {
        cursor
    } else if new_len == 0 {
        0
    } else {
        new_len - 1
    }
}

/// The mathematical model of a list with a cursor.
#[verifier::ext_equal]
pub struct ListView<T> {
    pub items: Seq<T>,
    pub selected: int,
}

impl<T> ListView<T> {
    /// The cursor is valid.
    pub open spec fn wf(self) -> bool {
        cursor_valid(self.items.len() as int, self.selected)
    }

    /// The item under the cursor, if the cursor points at one.
    pub open spec fn selected_item(self) -> Option<T> {
        if 0 <= self.selected < self.items.len() {
            Some(self.items[self.selected])
        } else {
            None
        }
    }

    /// The list with the cursor one step towards the front.
    pub open spec fn select_previous(self) -> Self {
        ListView { selected: previous_cursor(self.selected), ..self }
    }

    /// The list with the cursor one step towards the back.
    pub open spec fn select_next(self) -> Self {
        ListView { selected: next_cursor(self.items.len() as int, self.selected), ..self }
    }

    /// The list with an item appended; the cursor stays.
    pub open spec fn push(self, item: T) -> Self {
        ListView { items: self.items.push(item), ..self }
    }

    /// Removal at `index`; nothing changes when no item stands there.
    pub open spec fn remove(self, index: int) -> Self {
        if 0 <= index < self.items.len() {
            ListView {
                items: self.items.remove(index),
                selected: cursor_after_remove(self.items.len() - 1, self.selected),
            }
        } else {
            self
        }
    }
}

/// An ordered list of items with a cursor on one of them. The cursor is
/// valid when it points at an item, or is 0 while the list is empty.
#[derive(Clone, Debug)]
pub struct ListState<I> {
    pub items: Vec<I>,
    pub selected: usize,
}

/// The model of a list whose items have models of their own.
impl<I: View> View for ListState<I> {
    type V = ListView<I::V>;

    open spec fn view(&self) -> ListView<I::V> {
        ListView { items: self.items@.map_values(|i: I| i@), selected: self.selected as int }
    }
}

impl<I> ListState<I> {
    /// The list as it stands, items taken as they are.
    pub open spec fn shallow(&self) -> ListView<I> {
        ListView { items: self.items@, selected: self.selected as int }
    }

    /// The cursor is valid.
    pub open spec fn wf(&self) -> bool {
        self.shallow().wf()
    }

    /// Whether the cursor is valid.
    pub fn is_valid(&self) -> (valid: bool)
        ensures
            valid == self.wf(),
    {
        self.selected < self.items.len() || (self.items.len() == 0 && self.selected == 0)
    }

    /// A list of the given items with the cursor on the first.
    pub fn new(items: Vec<I>) -> (list: ListState<I>)
        ensures
            list.items == items,
            list.selected == 0,
            list.wf(),
    {
        ListState { items, selected: 0 }
    }

    /// The number of items.
    pub fn len(&self) -> (n: usize)
        ensures
            n == self.items@.len(),
    {
        self.items.len()
    }

    /// Whether the list holds no item.
    pub fn is_empty(&self) -> (empty: bool)
        ensures
            empty == (self.items@.len() == 0),
    {
        self.items.len() == 0
    }

    /// Moves the cursor one step towards the front; at 0 it stays.
    pub fn select_previous(&mut self)
        ensures
            final(self).shallow() == old(self).shallow().select_previous(),
            final(self).items == old(self).items,
            old(self).wf() ==> final(self).wf(),
    {
        if self.selected != 0 {
            self.selected -= 1;
        }
    }

    /// Moves the cursor one step towards the back; on the last item, past it,
    /// or over an empty list it stays.
    pub fn select_next(&mut self)
        ensures
            final(self).shallow() == old(self).shallow().select_next(),
            final(self).items == old(self).items,
            old(self).wf() ==> final(self).wf(),
    {
        if self.is_empty() {
            return ;
        }
        if self.selected < self.len() - 1 {
            self.selected += 1
        }
    }

    /// The item under the cursor, or `None` where the cursor points at none.
    pub fn get_selected(&self) -> (item: Option<&I>)
        ensures
            match item {
                Some(i) => Some(*i) == self.shallow().selected_item(),
                None => self.shallow().selected_item().is_none(),
            },
    {
        if self.selected < self.items.len() {
            Some(&self.items[self.selected])
        } else {
            None
        }
    }

    /// The item under the cursor, to be changed in place, or `None` where the
    /// cursor points at none.
    pub fn get_selected_mut(&mut self) -> (item: Option<&mut I>)
        ensures
            final(self).selected == old(self).selected,
            match item {
                Some(i) => {
                    &&& Some(*i) == old(self).shallow().selected_item()
                    &&& final(self).items@ == old(self).items@.update(
                        old(self).selected as int,
                        *final(i),
                    )
                },
                None => {
                    &&& old(self).shallow().selected_item().is_none()
                    &&& final(self).items@ == old(self).items@
                },
            },
    {
        if self.selected < self.items.len() {
            let at: usize = self.selected;
            Some(&mut self.items[at])
        } else {
            None
        }
    }

    /// The items in order.
    pub fn iter(&self) -> (items: core::slice::Iter<'_, I>)
        ensures
            vstd::std_specs::iter::IteratorSpec::remaining(&items) == self.items@.as_ref(),
    {
        broadcast use vstd::std_specs::slice::axiom_spec_slice_iter;

        self.items.iter()
    }

    /// Appends an item; the cursor stays where it is.
    pub fn push(&mut self, item: I)
        ensures
            final(self).shallow() == old(self).shallow().push(item),
            old(self).wf() ==> final(self).wf(),
    {
        self.items.push(item);
    }

    /// Removes and returns the item at `index`. Without an item there, the
    /// list is left alone. The cursor moves back only as far as it must to
    /// stay valid.
    pub fn remove(&mut self, index: usize) -> (removed: Option<I>)
        ensures
            final(self).shallow() == old(self).shallow().remove(index as int),
            removed == if index < old(self).items@.len() {
                Some(old(self).items@[index as int])
            } else {
                None
            },
            index < old(self).items@.len() ==> final(self).wf(),
            old(self).wf() ==> final(self).wf(),
    {
        if index >= self.items.len() {
            return None;
        }
        let item = self.items.remove(index);
        let len: usize = self.items.len();
        if self.selected >= len {
            self.selected = if len == 0 { 0 } else { len - 1 };
        }
        Some(item)
    }
}

/// `list[idx]` is the item at `idx`, which must exist.
impl<I> core::ops::Index<usize> for ListState<I> {
    type Output = I;

    fn index(&self, idx: usize) -> (item: &I)
        ensures
            *item == self.items@[idx as int],
    {
        &self.items[idx]
    }
}

/// An index is one of an item.
impl<I> vstd::std_specs::core::IndexSpecImpl<usize> for ListState<I> {
    open spec fn index_req(&self, index: &usize) -> bool {
        *index < self.items@.len()
    }
}

/// `list[idx] = item` replaces the item at `idx`, which must exist.
impl<I> core::ops::IndexMut<usize> for ListState<I> {
    fn index_mut(&mut self, idx: usize) -> (item: &mut I)
        requires
            idx < old(self).items@.len(),
        ensures
            *item == old(self).items@[idx as int],
            final(self).items@ == old(self).items@.update(idx as int, *final(item)),
            final(self).selected == old(self).selected,
    {
        &mut self.items[idx]
    }
}

/// The empty list.
impl<I> Default for ListState<I> {
    fn default() -> (list: Self)
        ensures
            list.items@.len() == 0,
            list.selected == 0,
    {
        Self::new(Vec::new())
    }
}

/// Moving the cursor back and then forth returns it to where it was, unless
/// it started at the front.
pub proof fn lemma_previous_then_next<T>(list: ListView<T>)
    requires
        list.wf(),
        list.items.len() > 0,
        list.selected != 0,
    ensures
        list.select_previous().select_next() == list,
{
}

/// Moving the cursor forth and then back returns it to where it was, unless
/// it started at the last item.
pub proof fn lemma_next_then_previous<T>(list: ListView<T>)
    requires
        list.wf(),
        list.items.len() > 0,
        list.selected != list.items.len() - 1,
    ensures
        list.select_next().select_previous() == list,
{
}

/// Over an empty list moving the cursor changes nothing and nothing is selected.
pub proof fn lemma_empty_list_is_inert<T>(list: ListView<T>)
    requires
        list.wf(),
        list.items.len() == 0,
    ensures
        list.select_next() == list,
        list.select_previous() == list,
        list.selected_item().is_none(),
        list.remove(0) == list,
{
}

} // verus!
