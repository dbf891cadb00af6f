//! An ordered collection with a clamped single-selection cursor.

use ratatui::widgets::ListState;
use vstd::prelude::*;

verus! {

/// The selection bookkeeping of a rendered list, owned by `ratatui`.
#[verifier::external_type_specification]
#[verifier::external_body]
pub struct ExListState(ListState);

/// The index that a `ListState` marks as selected, if any.
pub uninterp spec fn selected_index(state: ListState) -> Option<usize>;

/// `ListState::default` starts with nothing selected.
pub assume_specification[ <ListState as core::default::Default>::default ]() -> (state: ListState)
    ensures
        selected_index(state) is None,
;

/// `ListState::selected` reads the selected index.
pub assume_specification[ ListState::selected ](state: &ListState) -> (index: Option<usize>)
    ensures
        index == selected_index(*state),
;

/// `ListState::select` stores the given index as the selection.
pub assume_specification[ ListState::select ](state: &mut ListState, index: Option<usize>)
    ensures
        selected_index(*final(state)) == index,
;

/// The selection after moving one item towards the end of a list of `len` items.
///
/// An empty list keeps whatever it had. Otherwise an unset selection becomes
/// the first item, and a set one advances by one but never past the last
/// item: from there, and from beyond it, the last item is selected.
pub open spec fn selection_after_next(len: nat, selected: Option<usize>) -> Option<usize> {
    if len == 0 {
        selected
    } else {
        match selected {
            Some(i) => if i >= len - 1 { Some((len - 1) as usize) } else { Some((i + 1) as usize) },
            None => Some(0),
        }
    }
}

/// The selection after moving one item towards the start of a list of `len` items.
///
/// An empty list keeps whatever it had. Otherwise an unset selection becomes
/// the first item, and a set one retreats by one unless it is the first.
pub open spec fn selection_after_previous(len: nat, selected: Option<usize>) -> Option<usize> {
    if len == 0 {
        selected
    } else {
        match selected {
            Some(i) => if i == 0 { Some(i) } else { Some((i - 1) as usize) },
            None => Some(0),
        }
    }
}

/// The selection after `count` moves towards the end.
pub open spec fn selection_after_nexts(len: nat, selected: Option<usize>, count: nat) -> Option<usize>
    decreases count,
{
    if count == 0 {
        selected
    } else {
        selection_after_next(len, selection_after_nexts(len, selected, (count - 1) as nat))
    }
}

/// The selection after `count` moves towards the start.
pub open spec fn selection_after_previouses(
    len: nat,
    selected: Option<usize>,
    count: nat,
) -> Option<usize>
    decreases count,
{
    if count == 0 {
        selected
    } else {
        selection_after_previous(len, selection_after_previouses(len, selected, (count - 1) as nat))
    }
}

/// Items with a selection cursor and a flag that asks for the selected row to
/// be emphasised when drawn.
#[derive(Debug)]
pub struct StatefulList<T> {
    pub state: ListState,
    pub items: Vec<T>,
    pub is_highlighted: bool,
}

impl<T> StatefulList<T> {
    /// The currently selected index, if any.
    pub open spec fn selected(&self) -> Option<usize> {
        selected_index(self.state)
    }

    /// Points the selection one past the last item, which asks the view to
    /// follow the newest item.
    pub fn select_last(&mut self)
        ensures
            final(self).selected() == Some(old(self).items.len()),
            final(self).items == old(self).items,
            final(self).is_highlighted == old(self).is_highlighted,
    {
        let len: usize = self.items.len();
        self.state.select(Some(len));
    }

    /// Moves the selection one item towards the end.
    pub fn next(&mut self)
        ensures
            final(self).selected() == selection_after_next(
                old(self).items@.len(),
                old(self).selected(),
            ),
            final(self).items == old(self).items,
            final(self).is_highlighted == old(self).is_highlighted,
    {
        let len: usize = self.items.len();
        if len != 0 {
            let i: usize = match self.state.selected() {
                Some(i) => if i >= len - 1 { len - 1 } else { i + 1 },
                None => 0,
            };
            self.state.select(Some(i));
        }
    }

    /// Moves the selection one item towards the start.
    pub fn previous(&mut self)
        ensures
            final(self).selected() == selection_after_previous(
                old(self).items@.len(),
                old(self).selected(),
            ),
            final(self).items == old(self).items,
            final(self).is_highlighted == old(self).is_highlighted,
    {
        if self.items.len() != 0 {
            let i: usize = match self.state.selected() {
                Some(i) => if i == 0 { i } else { i - 1 },
                None => 0,
            };
            self.state.select(Some(i));
        }
    }
}

impl<T> Default for StatefulList<T> {
    /// An empty list with nothing selected and no emphasis.
    fn default() -> (list: Self)
        ensures
            list.items@.len() == 0,
            list.selected() is None,
            !list.is_highlighted,
    {
        StatefulList { state: ListState::default(), items: Vec::new(), is_highlighted: false }
    }
}

/// On an empty list neither move changes the selection.
pub proof fn lemma_empty_list_keeps_selection(selected: Option<usize>, count: nat)
    ensures
        selection_after_nexts(0, selected, count) == selected,
        selection_after_previouses(0, selected, count) == selected,
    decreases count,
{
    if count > 0 {
        lemma_empty_list_keeps_selection(selected, (count - 1) as nat);
    }
}

/// On a list that is not empty, a move towards the end always selects one of
/// its items.
pub proof fn lemma_next_stays_inside(len: nat, selected: Option<usize>)
    requires
        0 < len <= usize::MAX,
    ensures
        selection_after_next(len, selected) is Some,
        selection_after_next(len, selected)->0 <= len - 1,
{
}

/// Repeated moves towards the end advance a selection by one item each and
/// stop at the last item, which is also where the first move brings a
/// selection that stood past the end.
pub proof fn lemma_next_saturates(len: nat, start: usize, count: nat)
    requires
        0 < len <= usize::MAX,
        count > 0,
    ensures
        selection_after_nexts(len, Some(start), count) == Some(
            (if start + count <= len - 1 { start + count } else { len - 1 }) as usize,
        ),
    decreases count,
{
    if count > 1 {
        lemma_next_saturates(len, start, (count - 1) as nat);
    } else {
        assert(selection_after_nexts(len, Some(start), 0) == Some(start));
    }
}

/// From an unset selection, the first move towards the end selects the first
/// item, and `len` moves or more reach the last item and stay there.
pub proof fn lemma_next_from_unset(len: nat, count: nat)
    requires
        0 < len <= usize::MAX,
        count > 0,
    ensures
        selection_after_nexts(len, None, count) == Some(
            (if count - 1 <= len - 1 { count - 1 } else { len - 1 }) as usize,
        ),
    decreases count,
{
    if count > 1 {
        lemma_next_from_unset(len, (count - 1) as nat);
    } else {
        assert(selection_after_nexts(len, None, 0) == None::<usize>);
    }
}

/// Repeated moves towards the start retreat by one item each and stop at the
/// first item.
pub proof fn lemma_previous_saturates(len: nat, start: usize, count: nat)
    requires
        len > 0,
    ensures
        selection_after_previouses(len, Some(start), count) == Some(
            (if count <= start { start - count } else { 0 }) as usize,
        ),
    decreases count,
{
    if count > 0 {
        lemma_previous_saturates(len, start, (count - 1) as nat);
    }
}

} // verus!
