//! The monitor as a whole: the application state together with the input
//! router and the refresh scheduler, stepped by the events of the main loop.

use vstd::prelude::*;
use crate::app::App;
use crate::input::{InputEvent, InputRouter};
use crate::record::ProcessRecord;
use crate::scheduler::RefreshScheduler;
use crate::state::AppState;

verus! {

/// The state that the main loop carries from one round to the next.
pub struct Monitor {
    pub app: App,
    pub router: InputRouter,
    pub scheduler: RefreshScheduler,
}

/// What a [`Monitor`] amounts to: its view.
pub ghost struct MonitorState {
    pub app: AppState,
    pub router: InputRouter,
    pub scheduler: RefreshScheduler,
}

impl View for Monitor {
    type V = MonitorState;

    open spec fn view(&self) -> MonitorState {
        MonitorState { app: self.app@, router: self.router, scheduler: self.scheduler }
    }
}

impl MonitorState {
    /// `next` is the state after `event` has arrived at `now_ms`, and
    /// `target` the process to be killed on its account, if any. A monitor
    /// that has stopped stays as it is. Otherwise the event goes to the
    /// input router and, if it is dispatched as a command, the application
    /// state takes the step of that command.
    pub open spec fn input_handled(
        self,
        event: InputEvent,
        now_ms: u64,
        next: MonitorState,
        target: Option<u32>,
    ) -> bool {
        if !self.app.running {
            next == self && target.is_none()
        } else {
            &&& next.scheduler == self.scheduler
            &&& next.router == self.router.after(event, now_ms)
            &&& match self.router.dispatched(event, now_ms) {
                Some(command) => self.app.dispatched_to(command, next.app, target),
                None => next.app == self.app && target.is_none(),
            }
        }
    }

    /// A refresh is due at `now_ms`: the monitor is running and the
    /// interval has passed since the last refresh.
    pub open spec fn refresh_due(self, now_ms: u64) -> bool {
        self.app.running && self.scheduler.due(now_ms)
    }

    /// `next` is the state after the process list has been refreshed from
    /// `snapshot` at `now_ms`. A monitor that has stopped stays as it is.
    pub open spec fn refreshed(
        self,
        snapshot: Seq<ProcessRecord>,
        now_ms: u64,
        next: MonitorState,
    ) -> bool {
        if !self.app.running {
            next == self
        } else {
            &&& next.router == self.router
            &&& next.scheduler == RefreshScheduler::at(now_ms)
            &&& self.app.refreshed_to(snapshot, next.app)
        }
    }
}

impl Monitor {
    /// Starts the monitor at `now_ms` on a first snapshot of the processes.
    /// The debounce window and the refresh interval both count from
    /// `now_ms`.
    pub fn new(snapshot: Vec<ProcessRecord>, now_ms: u64) -> (monitor: Monitor)
        ensures
            AppState::first(snapshot@).resorted_to(monitor@.app),
            monitor@.app.wf(),
            monitor@.router == InputRouter::at(now_ms),
            monitor@.scheduler == RefreshScheduler::at(now_ms),
    {
        Monitor {
            app: App::new(snapshot),
            router: InputRouter::new(now_ms),
            scheduler: RefreshScheduler::new(now_ms),
        }
    }

    /// Says whether the main loop is to go on.
    pub fn is_running(&self) -> (running: bool)
        ensures
            running == self@.app.running,
    {
        self.app.running
    }

    /// The longest the main loop may wait for input at `now_ms`, in
    /// milliseconds: the time left until the next refresh is due.
    pub fn poll_timeout(&self, now_ms: u64) -> (timeout: u64)
        ensures
            timeout == self@.scheduler.remaining(now_ms),
    {
        self.scheduler.poll_timeout(now_ms)
    }

    /// Takes in one raw input event that arrived at `now_ms`, and names the
    /// process that the main loop is to kill on its account, if any.
    pub fn handle_input(&mut self, event: InputEvent, now_ms: u64) -> (target: Option<u32>)
        ensures
            old(self)@.input_handled(event, now_ms, final(self)@, target),
            old(self)@.app.wf() ==> final(self)@.app.wf(),
    {
        if !self.app.running {
            return None;
        }
        match self.router.route(event, now_ms) {
            Some(command) => self.app.dispatch(command),
            None => None,
        }
    }

    /// Says whether the main loop is to take a new snapshot at `now_ms`.
    pub fn refresh_due(&self, now_ms: u64) -> (due: bool)
        ensures
            due == self@.refresh_due(now_ms),
    {
        self.app.running && self.scheduler.is_due(now_ms)
    }

    /// Takes in the snapshot that the main loop took, and counts the next
    /// interval from `now_ms`.
    pub fn refresh(&mut self, snapshot: Vec<ProcessRecord>, now_ms: u64)
        ensures
            old(self)@.refreshed(snapshot@, now_ms, final(self)@),
            old(self)@.app.wf() ==> final(self)@.app.wf(),
    {
        if self.app.running {
            self.app.on_tick(snapshot);
            self.scheduler.mark_refreshed(now_ms);
        }
    }
}

/// Once the monitor has stopped, no input event and no refresh changes it,
/// no refresh is due, and no process is named for killing.
pub proof fn lemma_stopped_is_final(
    state: MonitorState,
    event: InputEvent,
    snapshot: Seq<ProcessRecord>,
    now_ms: u64,
    next: MonitorState,
    target: Option<u32>,
)
    requires
        !state.app.running,
    ensures
        state.input_handled(event, now_ms, next, target) ==> next == state && target.is_none(),
        state.refreshed(snapshot, now_ms, next) ==> next == state,
        !state.refresh_due(now_ms),
{
}

} // verus!
