//! The application state and the operations on it.

use vstd::prelude::*;
use crate::input::Command;
use crate::record::ProcessRecord;
use crate::selection::{step_down, step_up};
use crate::sort::sort_records;
use crate::sort_key::SortBy;
use crate::state::AppState;

verus! {

/// Everything the monitor shows: the rows, the cursor, the sort key, and
/// whether it is still running.
pub struct App {
    /// False once the operator has asked to quit.
    pub running: bool,
    /// The highlighted row, if any. After the list has shrunk it may lie
    /// beyond the end of the list until the cursor moves again.
    pub selected: Option<usize>,
    /// The rows of the table, top to bottom.
    pub processes: Vec<ProcessRecord>,
    /// The key that orders the rows.
    pub sort_by: SortBy,
}

impl View for App {
    type V = AppState;

    open spec fn view(&self) -> AppState {
        AppState {
            running: self.running,
            selected: self.selected,
            records: self.processes@,
            sort_by: self.sort_by,
        }
    }
}

impl App {
    /// Starts the monitor on a first snapshot of the processes: running,
    /// nothing selected, rows sorted by memory.
    pub fn new(snapshot: Vec<ProcessRecord>) -> (app: App)
        ensures
            AppState::first(snapshot@).resorted_to(app@),
            app@.wf(),
    {
        let mut app = App {
            running: true,
            selected: None,
            processes: Vec::new(),
            sort_by: SortBy::Memory,
        };
        app.update_processes_list(snapshot);
        app
    }

    /// Takes in a fresh snapshot when the refresh interval has passed.
    pub fn on_tick(&mut self, snapshot: Vec<ProcessRecord>)
        ensures
            old(self)@.refreshed_to(snapshot@, final(self)@),
            final(self)@.wf(),
    {
        self.update_processes_list(snapshot);
    }

    /// Replaces the rows by those of `snapshot`, sorted by the active key.
    /// The cursor stays on the row number it was on.
    pub fn update_processes_list(&mut self, snapshot: Vec<ProcessRecord>)
        ensures
            old(self)@.refreshed_to(snapshot@, final(self)@),
            final(self)@.wf(),
    {
        self.processes = snapshot;
        self.sort();
    }

    /// Sorts the rows by the active key.
    pub fn sort(&mut self)
        ensures
            old(self)@.resorted_to(final(self)@),
            final(self)@.wf(),
    {
        sort_records(&mut self.processes, self.sort_by);
    }

    /// Steps to the next sort key and sorts the rows by it.
    pub fn toggle_sort(&mut self)
        ensures
            old(self)@.toggled_to(final(self)@),
            final(self)@.wf(),
    {
        self.sort_by = self.sort_by.toggled();
        self.sort();
    }

    /// Moves the cursor one row down, from the last row back to the first.
    pub fn next(&mut self)
        ensures
            final(self)@ == old(self)@.select_next(),
    {
        let index = step_down(self.selected, self.processes.len());
        self.selected = Some(index);
    }

    /// Moves the cursor one row up, from the first row on to the last.
    pub fn previous(&mut self)
        ensures
            final(self)@ == old(self)@.select_previous(),
    {
        let index = step_up(self.selected, self.processes.len());
        self.selected = Some(index);
    }

    /// Carries out `command` as the one operation it stands for, and names
    /// the process to be killed where the command asks for that.
    pub fn dispatch(&mut self, command: Command) -> (target: Option<u32>)
        ensures
            old(self)@.dispatched_to(command, final(self)@, target),
            old(self)@.wf() ==> final(self)@.wf(),
    {
        match command {
            Command::Quit => {
                self.running = false;
                None
            },
            Command::MoveDown => {
                self.next();
                None
            },
            Command::MoveUp => {
                self.previous();
                None
            },
            Command::KillSelected => self.kill_selected_process(),
            Command::ToggleSort => {
                self.toggle_sort();
                None
            },
        }
    }

    /// Names the process that a kill request is for: the one under the
    /// cursor, if the cursor is on a row of the list. The state stays as it
    /// is; sending the request is left to the caller.
    pub fn kill_selected_process(&self) -> (target: Option<u32>)
        ensures
            target == self@.kill_target(),
    {
        match self.selected {
            Some(index) => {
                if index < self.processes.len() {
                    Some(self.processes[index].id)
                } else {
                    None
                }
            },
            None => None,
        }
    }
}

} // verus!
