//! A cursor over the rows of a list. The cursor is either unset or the index
//! of a row; every move keeps it on a row, and an empty list has none.

use vstd::prelude::*;

verus! {

/// The cursor as a mathematical index.
pub open spec fn position(cursor: Option<usize>) -> Option<nat> {
    match cursor {
        Some(i) => Some(i as nat),
        None => None,
    }
}

/// A cursor that is unset or points at one of `len` rows.
pub open spec fn cursor_in_range(len: nat, cursor: Option<nat>) -> bool {
    cursor matches Some(i) ==> i < len
}

/// The first row, if there is one.
pub open spec fn cursor_first(len: nat) -> Option<nat> {
    if len == 0 {
        None
    } else {
        Some(0)
    }
}

/// The last row, if there is one.
pub open spec fn cursor_last(len: nat) -> Option<nat> {
    if len == 0 {
        None
    } else {
        Some((len - 1) as nat)
    }
}

/// `cursor` pulled back onto the rows: past the end it becomes the last row,
/// and on an empty list it is unset.
pub open spec fn cursor_clamp(len: nat, cursor: Option<nat>) -> Option<nat> {
    match cursor {
        Some(i) if i >= len => cursor_last(len),
        _ => cursor,
    }
}

/// One row down, stopping at the last row. An unset cursor goes to the first
/// row.
pub open spec fn cursor_next(len: nat, cursor: Option<nat>) -> Option<nat> {
    match cursor {
        Some(i) => cursor_clamp(len, Some(i + 1)),
        None => cursor_first(len),
    }
}

/// One row up, stopping at the first row. An unset cursor goes to the last
/// row.
pub open spec fn cursor_previous(len: nat, cursor: Option<nat>) -> Option<nat> {
    match cursor {
        Some(i) if i > 0 => cursor_clamp(len, Some((i - 1) as nat)),
        Some(_) => cursor_first(len),
        None => cursor_last(len),
    }
}

/// A list with a cursor, as contracts speak of it: the rows in order and the
/// index of the selected row, if one is selected.
pub struct ListModel<T> {
    pub items: Seq<T>,
    pub cursor: Option<nat>,
}

impl<T> ListModel<T> {
    /// The cursor, if set, points at a row.
    pub open spec fn wf(self) -> bool {
        cursor_in_range(self.items.len(), self.cursor)
    }

    /// No rows and no cursor.
    pub open spec fn empty() -> Self {
        ListModel { items: Seq::empty(), cursor: None }
    }

    /// The given rows with the cursor on the first of them.
    pub open spec fn holding(items: Seq<T>) -> Self {
        ListModel { items, cursor: cursor_first(items.len()) }
    }

    /// The index of the selected row, if the cursor points at one.
    pub open spec fn selected_index(self) -> Option<nat> {
        match self.cursor {
            Some(i) if i < self.items.len() => Some(i),
            _ => None,
        }
    }

    /// The selected row, if the cursor points at one.
    pub open spec fn selected(self) -> Option<T> {
        match self.selected_index() {
            Some(i) => Some(self.items[i as int]),
            None => None,
        }
    }

    /// The cursor on the first row, if there is one.
    pub open spec fn select_first(self) -> Self {
        ListModel { cursor: cursor_first(self.items.len()), ..self }
    }

    /// The cursor on the last row, if there is one.
    pub open spec fn select_last(self) -> Self {
        ListModel { cursor: cursor_last(self.items.len()), ..self }
    }

    /// The cursor one row down, or on the first row if it was unset.
    pub open spec fn select_next(self) -> Self {
        ListModel { cursor: cursor_next(self.items.len(), self.cursor), ..self }
    }

    /// The cursor one row up, or on the last row if it was unset.
    pub open spec fn select_previous(self) -> Self {
        ListModel { cursor: cursor_previous(self.items.len(), self.cursor), ..self }
    }

    /// The cursor unset.
    pub open spec fn clear_selection(self) -> Self {
        ListModel { cursor: None, ..self }
    }

    /// New rows in place of the old ones, the cursor back on the first.
    pub open spec fn replace_items(self, items: Seq<T>) -> Self {
        Self::holding(items)
    }

    /// One more row at the end. The cursor stays where it is.
    pub open spec fn append(self, item: T) -> Self {
        ListModel { items: self.items.push(item), ..self }
    }

    /// The selected row exchanged for `item`. Without a selected row nothing
    /// changes.
    pub open spec fn replace_selected(self, item: T) -> Self {
        match self.selected_index() {
            Some(i) => ListModel { items: self.items.update(i as int, item), ..self },
            None => self,
        }
    }

    /// The selected row taken out. The cursor keeps its index, which is now
    /// that of the following row, or moves to the new last row if the old last
    /// row left. Without a selected row nothing changes.
    pub open spec fn remove_selected(self) -> Self {
        match self.selected_index() {
            Some(i) => ListModel {
                items: self.items.remove(i as int),
                cursor: cursor_clamp((self.items.len() - 1) as nat, self.cursor),
            },
            None => self,
        }
    }

    /// `select_next` applied `times` times.
    pub open spec fn select_next_repeated(self, times: nat) -> Self
        decreases times,
    {
        if times == 0 {
            self
        } else {
            self.select_next_repeated((times - 1) as nat).select_next()
        }
    }

    /// `select_previous` applied `times` times.
    pub open spec fn select_previous_repeated(self, times: nat) -> Self
        decreases times,
    {
        if times == 0 {
            self
        } else {
            self.select_previous_repeated((times - 1) as nat).select_previous()
        }
    }
}

/// The cursor on the first of `len` rows.
pub fn first(len: usize) -> (cursor: Option<usize>)
    ensures
        position(cursor) == cursor_first(len as nat),
{
    if len == 0 {
        None
    } else {
        Some(0)
    }
}

/// The cursor on the last of `len` rows.
pub fn last(len: usize) -> (cursor: Option<usize>)
    ensures
        position(cursor) == cursor_last(len as nat),
{
    if len == 0 {
        None
    } else {
        Some(len - 1)
    }
}

/// The cursor pulled back onto the `len` rows.
pub fn clamp(len: usize, cursor: Option<usize>) -> (clamped: Option<usize>)
    ensures
        position(clamped) == cursor_clamp(len as nat, position(cursor)),
{
    match cursor {
        Some(i) => if i >= len {
            last(len)
        } else {
            cursor
        },
        None => None,
    }
}

/// The cursor one row down.
pub fn next(len: usize, cursor: Option<usize>) -> (moved: Option<usize>)
    ensures
        position(moved) == cursor_next(len as nat, position(cursor)),
{
    match cursor {
        Some(i) => if i < len && len - i > 1 {
            Some(i + 1)
        } else {
            last(len)
        },
        None => first(len),
    }
}

/// The cursor one row up.
pub fn previous(len: usize, cursor: Option<usize>) -> (moved: Option<usize>)
    ensures
        position(moved) == cursor_previous(len as nat, position(cursor)),
{
    match cursor {
        Some(i) => if i == 0 {
            first(len)
        } else {
            clamp(len, Some(i - 1))
        },
        None => last(len),
    }
}

/// Every move lands on a row or, on an empty list, nowhere; a cursor that is
/// on a row already is not moved by clamping.
pub proof fn lemma_moves_stay_in_range(len: nat, cursor: Option<nat>)
    ensures
        cursor_in_range(len, cursor_first(len)),
        cursor_in_range(len, cursor_last(len)),
        cursor_in_range(len, cursor_clamp(len, cursor)),
        cursor_in_range(len, cursor_next(len, cursor)),
        cursor_in_range(len, cursor_previous(len, cursor)),
        cursor_in_range(len, cursor) ==> cursor_clamp(len, cursor) == cursor,
{
}

/// Selecting and replacing the rows leave the cursor on a row or unset,
/// whatever the list was before; appending, exchanging and removing a row keep
/// a valid list valid.
pub proof fn lemma_operations_keep_list_valid<T>(list: ListModel<T>, items: Seq<T>, item: T)
    ensures
        ListModel::<T>::empty().wf(),
        ListModel::holding(items).wf(),
        list.select_first().wf(),
        list.select_last().wf(),
        list.select_next().wf(),
        list.select_previous().wf(),
        list.clear_selection().wf(),
        list.replace_items(items).wf(),
        list.wf() ==> list.remove_selected().wf(),
        list.wf() ==> list.append(item).wf(),
        list.wf() ==> list.replace_selected(item).wf(),
{
}

/// An empty list has no cursor, and moving down or up on it leaves the cursor
/// unset.
pub proof fn lemma_empty_list_has_no_cursor<T>(list: ListModel<T>)
    requires
        list.items.len() == 0,
    ensures
        list.wf() ==> list.cursor is None,
        list.select_next().cursor is None,
        list.select_previous().cursor is None,
        list.select_first().cursor is None,
        list.select_last().cursor is None,
{
}

/// Where moving down `times` times leaves the cursor of a list with rows:
/// each move advances one row until the last row is reached.
pub proof fn lemma_select_next_repeated<T>(list: ListModel<T>, times: nat)
    requires
        list.wf(),
        list.items.len() > 0,
    ensures
        list.select_next_repeated(times).items == list.items,
        list.select_next_repeated(times).cursor == match list.cursor {
            Some(i) => Some(
                if i + times < list.items.len() {
                    i + times
                } else {
                    (list.items.len() - 1) as nat
                },
            ),
            None => if times == 0 {
                None
            } else {
                Some(
                    if times - 1 < list.items.len() {
                        (times - 1) as nat
                    } else {
                        (list.items.len() - 1) as nat
                    },
                )
            },
        },
    decreases times,
{
    if times > 0 {
        lemma_select_next_repeated(list, (times - 1) as nat);
    }
}

/// Where moving up `times` times leaves the cursor of a list with rows: each
/// move goes back one row until the first row is reached.
pub proof fn lemma_select_previous_repeated<T>(list: ListModel<T>, times: nat)
    requires
        list.wf(),
        list.items.len() > 0,
    ensures
        list.select_previous_repeated(times).items == list.items,
        list.select_previous_repeated(times).cursor == match list.cursor {
            Some(i) => Some(
                if times < i {
                    (i - times) as nat
                } else {
                    0
                },
            ),
            None => if times == 0 {
                None
            } else {
                Some(
                    if times < list.items.len() {
                        (list.items.len() - times) as nat
                    } else {
                        0
                    },
                )
            },
        },
    decreases times,
{
    if times > 0 {
        lemma_select_previous_repeated(list, (times - 1) as nat);
    }
}

/// On a list with rows, moving down as many times as there are rows, or
/// more, ends on the last row, and moving down from the last row stays there.
pub proof fn lemma_select_next_converges<T>(list: ListModel<T>, times: nat)
    requires
        list.wf(),
        list.items.len() > 0,
        times >= list.items.len(),
    ensures
        list.select_next_repeated(times) == list.select_last(),
        list.select_last().select_next() == list.select_last(),
{
    lemma_select_next_repeated(list, times);
}

/// On a list with rows, moving up as many times as there are rows, or more,
/// ends on the first row, and moving up from the first row stays there.
pub proof fn lemma_select_previous_converges<T>(list: ListModel<T>, times: nat)
    requires
        list.wf(),
        list.items.len() > 0,
        times >= list.items.len(),
    ensures
        list.select_previous_repeated(times) == list.select_first(),
        list.select_first().select_previous() == list.select_first(),
{
    lemma_select_previous_repeated(list, times);
}

} // verus!
