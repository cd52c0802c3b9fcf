use vstd::prelude::*;
use tui::widgets::{ListState, TableState};

verus! {

#[verifier::external_type_specification]
#[verifier::external_body]
pub struct ExTableState(TableState);

#[verifier::external_type_specification]
#[verifier::external_body]
pub struct ExListState(ListState);

/// The row that a `tui` table state marks as selected.
pub uninterp spec fn table_selection(state: TableState) -> Option<usize>;

/// The item that a `tui` list state marks as selected.
pub uninterp spec fn list_selection(state: ListState) -> Option<usize>;

/// The scroll offset (first row shown) that a `tui` table state holds.
pub uninterp spec fn table_offset(state: TableState) -> usize;

/// The scroll offset (first item shown) that a `tui` list state holds.
pub uninterp spec fn list_offset(state: ListState) -> usize;

/// `TableState::default()`: a state with no row selected and offset 0.
#[verifier::external_body]
pub(crate) fn table_state_new() -> (res: TableState)
    ensures
        table_selection(res) == None::<usize>,
        table_offset(res) == 0,
{
    TableState::default()
}

/// `TableState::selected`: returns the selected row.
#[verifier::external_body]
pub(crate) fn table_state_selected(state: &TableState) -> (res: Option<usize>)
    ensures
        res == table_selection(*state),
{
    state.selected()
}

/// `TableState::select`: marks `index` as the selected row; the scroll
/// offset is reset to 0 when `index` is `None` and kept otherwise.
#[verifier::external_body]
pub(crate) fn table_state_select(state: &mut TableState, index: Option<usize>)
    ensures
        table_selection(*final(state)) == index,
        table_offset(*final(state)) == (if index is None { 0 } else { table_offset(*old(state)) }),
{
    state.select(index)
}

/// `ListState::default()`: a state with no item selected and offset 0.
#[verifier::external_body]
pub(crate) fn list_state_new() -> (res: ListState)
    ensures
        list_selection(res) == None::<usize>,
        list_offset(res) == 0,
{
    ListState::default()
}

/// `ListState::selected`: returns the selected item.
#[verifier::external_body]
pub(crate) fn list_state_selected(state: &ListState) -> (res: Option<usize>)
    ensures
        res == list_selection(*state),
{
    state.selected()
}

/// `ListState::select`: marks `index` as the selected item; the scroll
/// offset is reset to 0 when `index` is `None` and kept otherwise.
#[verifier::external_body]
pub(crate) fn list_state_select(state: &mut ListState, index: Option<usize>)
    ensures
        list_selection(*final(state)) == index,
        list_offset(*final(state)) == (if index is None { 0 } else { list_offset(*old(state)) }),
{
    state.select(index)
}

/// Index that `Selectable::next` moves to from `sel` in a list of `n` items.
pub open spec fn next_index(sel: Option<usize>, n: nat) -> int {
    match sel {
        Some(i) => if i >= n - 1 { 0 } else { i + 1 },
        None => 0,
    }
}

/// Index that `Selectable::previous` moves to from `sel` in a list of `n` items.
pub open spec fn previous_index(sel: Option<usize>, n: nat) -> int {
    match sel {
        Some(i) => if i == 0 { n - 1 } else { i - 1 },
        None => 0,
    }
}

/// Law: in a list of `n` entries, `next` moves from entry `i` to an entry of
/// the list, and `previous` then moves back to `i`; the other way round too.
pub proof fn lemma_next_previous_inverse(i: usize, n: nat)
    requires
        i < n <= usize::MAX,
    ensures
        0 <= next_index(Some(i), n) < n,
        0 <= previous_index(Some(i), n) < n,
        previous_index(Some(next_index(Some(i), n) as usize), n) == i,
        next_index(Some(previous_index(Some(i), n) as usize), n) == i,
{
}

/// Law: with nothing selected, both `next` and `previous` select the first
/// entry.
pub proof fn lemma_unselected_moves_to_first(n: nat)
    ensures
        next_index(None, n) == 0,
        previous_index(None, n) == 0,
{
}

/// A list or table whose entries the operator scrolls through.
pub trait Selectable {
    /// Everything about the value other than its selection.
    type Content;

    spec fn selection(&self) -> Option<usize>;

    /// The scroll offset of the widget state.
    spec fn offset(&self) -> usize;

    spec fn size(&self) -> nat;

    spec fn content(&self) -> Self::Content;

    fn selected(&self) -> (res: Option<usize>)
        ensures
            res == self.selection(),
    ;

    fn select(&mut self, index: Option<usize>)
        ensures
            final(self).selection() == index,
            final(self).offset() == (if index is None { 0 } else { old(self).offset() }),
            final(self).size() == old(self).size(),
            final(self).content() == old(self).content(),
    ;

    fn len(&self) -> (res: usize)
        ensures
            res == self.size(),
    ;

    /// Selects the following entry, wrapping from the last to the first; with
    /// nothing selected, selects the first.
    fn next(&mut self)
        requires
            old(self).selection() is Some ==> old(self).size() > 0,
        ensures
            final(self).selection() == Some(next_index(old(self).selection(), old(self).size()) as usize),
            final(self).offset() == old(self).offset(),
            final(self).size() == old(self).size(),
            final(self).content() == old(self).content(),
    {
        let i: usize = match self.selected() {
            Some(i) => {
                if i >= self.len() - 1 {
                    0
                } else {
                    i + 1
                }
            },
            None => 0,
        };
        self.select(Some(i));
    }

    /// Selects the preceding entry, wrapping from the first to the last; with
    /// nothing selected, selects the first.
    fn previous(&mut self)
        requires
            old(self).selection() == Some(0usize) ==> old(self).size() > 0,
        ensures
            final(self).selection() == Some(previous_index(old(self).selection(), old(self).size()) as usize),
            final(self).offset() == old(self).offset(),
            final(self).size() == old(self).size(),
            final(self).content() == old(self).content(),
    {
        let i: usize = match self.selected() {
            Some(i) => {
                if i == 0 {
                    self.len() - 1
                } else {
                    i - 1
                }
            },
            None => 0,
        };
        self.select(Some(i));
    }

    /// Clears the selection.
    fn unselect(&mut self)
        ensures
            final(self).selection() == None::<usize>,
            final(self).offset() == 0,
            final(self).size() == old(self).size(),
            final(self).content() == old(self).content(),
    {
        self.select(None);
    }
}

} // verus!
