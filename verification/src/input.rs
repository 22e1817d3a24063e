//! The input router: which command a raw input event stands for, and the
//! debounce window that events have to wait out.

use vstd::prelude::*;

verus! {

/// The key that asks the monitor to quit.
pub const QUIT_KEY: char = 'q';

/// The key that asks for the selected process to be killed.
pub const KILL_KEY: char = 'k';

/// The key that steps to the next sort key.
pub const SORT_KEY: char = 's';

/// Milliseconds that must pass after an accepted event before the next one
/// is accepted.
pub const DEBOUNCE_MS: u64 = 50;

/// A key press, as far as the monitor tells keys apart.
#[derive(Clone, Copy, Debug, PartialEq, Eq, Structural)]
pub enum KeyInput {
    /// A key that stands for a character.
    Char(char),
    /// The up arrow.
    Up,
    /// The down arrow.
    Down,
    /// Any other key.
    Other,
}

/// A mouse event, as far as the monitor tells them apart.
#[derive(Clone, Copy, Debug, PartialEq, Eq, Structural)]
pub enum MouseInput {
    /// The wheel turned up.
    ScrollUp,
    /// The wheel turned down.
    ScrollDown,
    /// A click, a drag or a move.
    Other,
}

/// A raw event from the terminal.
#[derive(Clone, Copy, Debug, PartialEq, Eq, Structural)]
pub enum InputEvent {
    Key(KeyInput),
    Mouse(MouseInput),
    /// An event that is neither from the keyboard nor from the mouse, such
    /// as a change of the terminal's size.
    Other,
}

/// What the operator can ask of the monitor.
#[derive(Clone, Copy, Debug, PartialEq, Eq, Structural)]
pub enum Command {
    Quit,
    MoveDown,
    MoveUp,
    KillSelected,
    ToggleSort,
}

/// The command that `event` stands for, if it stands for one.
pub open spec fn command_for(event: InputEvent) -> Option<Command> {
    match event {
        InputEvent::Key(KeyInput::Char(c)) => if c == QUIT_KEY {
            Some(Command::Quit)
        } else if c == KILL_KEY {
            Some(Command::KillSelected)
        } else if c == SORT_KEY {
            Some(Command::ToggleSort)
        } else {
            None
        },
        InputEvent::Key(KeyInput::Down) => Some(Command::MoveDown),
        InputEvent::Key(KeyInput::Up) => Some(Command::MoveUp),
        InputEvent::Mouse(MouseInput::ScrollDown) => Some(Command::MoveDown),
        InputEvent::Mouse(MouseInput::ScrollUp) => Some(Command::MoveUp),
        _ => None,
    }
}

/// Computes [`command_for`].
pub fn classify(event: InputEvent) -> (command: Option<Command>)
    ensures
        command == command_for(event),
{
    match event {
        InputEvent::Key(KeyInput::Char(c)) => if c == QUIT_KEY {
            Some(Command::Quit)
        } else if c == KILL_KEY {
            Some(Command::KillSelected)
        } else if c == SORT_KEY {
            Some(Command::ToggleSort)
        } else {
            None
        },
        InputEvent::Key(KeyInput::Down) => Some(Command::MoveDown),
        InputEvent::Key(KeyInput::Up) => Some(Command::MoveUp),
        InputEvent::Mouse(MouseInput::ScrollDown) => Some(Command::MoveDown),
        InputEvent::Mouse(MouseInput::ScrollUp) => Some(Command::MoveUp),
        _ => None,
    }
}

/// The debouncer: remembers when the last event was accepted.
#[derive(Clone, Copy, Debug, PartialEq, Eq, Structural)]
pub struct InputRouter {
    /// Clock reading, in milliseconds, at the last accepted event.
    pub last_input_ms: u64,
}

impl InputRouter {
    /// The router right after an event was accepted at `now_ms`.
    pub open spec fn at(now_ms: u64) -> InputRouter {
        InputRouter { last_input_ms: now_ms }
    }

    /// An event that arrives at `now_ms` is accepted: the debounce window
    /// has passed since the last accepted event.
    pub open spec fn accepts(self, now_ms: u64) -> bool {
        now_ms - self.last_input_ms >= DEBOUNCE_MS
    }

    /// The router after `event` has arrived at `now_ms`. An accepted event
    /// from the keyboard or the mouse starts a new window, whether or not it
    /// stands for a command.
    pub open spec fn after(self, event: InputEvent, now_ms: u64) -> InputRouter {
        if self.accepts(now_ms) && event != InputEvent::Other {
            InputRouter::at(now_ms)
        } else {
            self
        }
    }

    /// The command that `event`, arriving at `now_ms`, is dispatched as:
    /// none inside the window.
    pub open spec fn dispatched(self, event: InputEvent, now_ms: u64) -> Option<Command> {
        if self.accepts(now_ms) {
            command_for(event)
        } else {
            None
        }
    }

    /// A router that counts its window from `now_ms`.
    pub fn new(now_ms: u64) -> (router: InputRouter)
        ensures
            router == InputRouter::at(now_ms),
    {
        InputRouter { last_input_ms: now_ms }
    }

    /// Takes one raw event and says which command, if any, it is dispatched
    /// as.
    pub fn route(&mut self, event: InputEvent, now_ms: u64) -> (command: Option<Command>)
        ensures
            command == old(self).dispatched(event, now_ms),
            *final(self) == old(self).after(event, now_ms),
    {
        if now_ms >= self.last_input_ms && now_ms - self.last_input_ms >= DEBOUNCE_MS {
            match event {
                InputEvent::Other => {},
                _ => {
                    self.last_input_ms = now_ms;
                },
            }
            classify(event)
        } else {
            None
        }
    }
}

/// Of two events from the keyboard or the mouse, the first of which is
/// accepted, the second is dropped if it arrives before the
/// debounce window has passed since the first, and is dispatched as the
/// command it stands for if it arrives when the window has passed.
pub proof fn lemma_debounce(
    router: InputRouter,
    first: InputEvent,
    first_ms: u64,
    second: InputEvent,
    second_ms: u64,
)
    requires
        router.accepts(first_ms),
        first != InputEvent::Other,
    ensures
        router.dispatched(first, first_ms) == command_for(first),
        second_ms - first_ms < DEBOUNCE_MS ==> router.after(first, first_ms).dispatched(
            second,
            second_ms,
        ) == None::<Command>,
        second_ms - first_ms < DEBOUNCE_MS ==> router.after(first, first_ms).after(
            second,
            second_ms,
        ) == router.after(first, first_ms),
        second_ms - first_ms >= DEBOUNCE_MS ==> router.after(first, first_ms).dispatched(
            second,
            second_ms,
        ) == command_for(second),
{
}

} // verus!
