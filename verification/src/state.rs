//! The application state as a mathematical value, and the steps it can take.

use vstd::prelude::*;
use crate::input::Command;
use crate::order::is_sorted;
use crate::record::ProcessRecord;
use crate::selection::{next_index, previous_index};
use crate::sort::is_stable_sort_of;
use crate::sort_key::SortBy;

verus! {

/// What the application state amounts to: the view of [`crate::app::App`].
pub ghost struct AppState {
    /// False once the operator has asked to quit.
    pub running: bool,
    /// The highlighted row, if any.
    pub selected: Option<usize>,
    /// The rows of the table, top to bottom.
    pub records: Seq<ProcessRecord>,
    /// The key that orders the rows.
    pub sort_by: SortBy,
}

impl AppState {
    /// The rows are in the order of the active key.
    pub open spec fn wf(self) -> bool {
        is_sorted(self.records, self.sort_by)
    }

    /// The state that the monitor starts from, before its rows are sorted:
    /// running, nothing selected, the key set to memory.
    pub open spec fn first(snapshot: Seq<ProcessRecord>) -> AppState {
        AppState { running: true, selected: None, records: snapshot, sort_by: SortBy::Memory }
    }

    /// The state after the cursor has moved down.
    pub open spec fn select_next(self) -> AppState {
        AppState {
            selected: Some(next_index(self.selected, self.records.len()) as usize),
            ..self
        }
    }

    /// The state after the cursor has moved up.
    pub open spec fn select_previous(self) -> AppState {
        AppState {
            selected: Some(previous_index(self.selected, self.records.len()) as usize),
            ..self
        }
    }

    /// The state after the operator has asked to quit.
    pub open spec fn quit(self) -> AppState {
        AppState { running: false, ..self }
    }

    /// The identifier of the process under the cursor: none where nothing is
    /// selected or the selected row lies beyond the end of the list.
    pub open spec fn kill_target(self) -> Option<u32> {
        match self.selected {
            Some(i) if i < self.records.len() => Some(self.records[i as int].id),
            _ => None,
        }
    }

    /// `next` is this state with its rows sorted anew by the active key.
    pub open spec fn resorted_to(self, next: AppState) -> bool {
        &&& next.running == self.running
        &&& next.selected == self.selected
        &&& next.sort_by == self.sort_by
        &&& is_stable_sort_of(next.records, self.records, self.sort_by)
    }

    /// `next` is this state with the rows replaced by those of `snapshot`,
    /// sorted by the active key.
    pub open spec fn refreshed_to(self, snapshot: Seq<ProcessRecord>, next: AppState) -> bool {
        &&& next.running == self.running
        &&& next.selected == self.selected
        &&& next.sort_by == self.sort_by
        &&& is_stable_sort_of(next.records, snapshot, self.sort_by)
    }

    /// `next` is this state one step further in the cycle of sort keys, with
    /// its rows sorted by the new key.
    pub open spec fn toggled_to(self, next: AppState) -> bool {
        &&& next.running == self.running
        &&& next.selected == self.selected
        &&& next.sort_by == self.sort_by.successor()
        &&& is_stable_sort_of(next.records, self.records, self.sort_by.successor())
    }

    /// `next` is the state that `command` leads to from this one, and
    /// `target` the process that the command asks to be killed, if any.
    /// Each command takes exactly one step.
    pub open spec fn dispatched_to(
        self,
        command: Command,
        next: AppState,
        target: Option<u32>,
    ) -> bool {
        match command {
            Command::Quit => next == self.quit() && target.is_none(),
            Command::MoveDown => next == self.select_next() && target.is_none(),
            Command::MoveUp => next == self.select_previous() && target.is_none(),
            Command::KillSelected => next == self && target == self.kill_target(),
            Command::ToggleSort => self.toggled_to(next) && target.is_none(),
        }
    }
}

/// Where the cursor is on a row of the list, moving it down and then up
/// again leaves the state as it was, and so does moving it up and then
/// down. From any other selection both moves land on a row of the list,
/// provided the list is not empty.
pub proof fn lemma_moves_are_inverse(state: AppState)
    requires
        state.records.len() > 0,
        state.records.len() <= usize::MAX,
    ensures
        state.selected matches Some(i) && i < state.records.len() ==> {
            &&& state.select_next().select_previous() == state
            &&& state.select_previous().select_next() == state
        },
        state.select_next().selected matches Some(i) && i < state.records.len(),
        state.select_next().select_previous().selected matches Some(i) && i < state.records.len(),
{
}

/// With an empty list a move down selects row 0, a move up selects row 0
/// unless a row after row 0 was selected, and there is never a process to
/// kill.
pub proof fn lemma_empty_list(state: AppState)
    requires
        state.records.len() == 0,
    ensures
        state.select_next().selected == Some(0usize),
        state.selected is None || state.selected == Some(0usize)
            ==> state.select_previous().selected == Some(0usize),
        state.kill_target().is_none(),
        state.select_next().kill_target().is_none(),
        state.select_previous().kill_target().is_none(),
{
}

/// Four toggles of the sort key bring back the key the state started
/// with, and leave the same records, in the order of that key.
pub proof fn lemma_four_toggles_return(
    state: AppState,
    first: AppState,
    second: AppState,
    third: AppState,
    fourth: AppState,
)
    requires
        state.toggled_to(first),
        first.toggled_to(second),
        second.toggled_to(third),
        third.toggled_to(fourth),
    ensures
        fourth.sort_by == state.sort_by,
        fourth.running == state.running,
        fourth.selected == state.selected,
        fourth.records.to_multiset() == state.records.to_multiset(),
        fourth.wf(),
{
}

} // verus!
