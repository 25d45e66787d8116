//! The foreground event loop's decisions.
//!
//! Each iteration the loop waits for the first of shutdown, fresh data, or a
//! key within the tick window, and hands what happened to `on_event`; the
//! returned control says whether to keep looping, and whether to broadcast
//! the shutdown signal before leaving. Waiting, drawing and reading keys
//! happen outside the library.

use vstd::prelude::*;
use crate::app::{active_list, enter_rel, esc_rel, steps_active_list, App};
use crate::list::{spec_next, spec_previous, spec_replace, spec_unselect};
use crate::service::{ServiceKind, UnknownVariant};

verus! {

/// A key press, as the terminal reports it.
#[derive(Clone, Copy, Debug)]
pub enum Key {
    /// A printable character.
    Char(char),
    /// The enter key.
    Enter,
    /// The escape key.
    Esc,
    /// The left arrow.
    Left,
    /// The up arrow.
    Up,
    /// The down arrow.
    Down,
    /// Any other key; the dashboard ignores it.
    Other,
}

/// What a key press asks of the dashboard.
#[derive(Clone, Copy, Debug)]
pub enum Action {
    /// Quit and broadcast shutdown.
    Quit,
    /// Descend into the selection.
    Enter,
    /// Return to the parent level.
    Back,
    /// Clear the selection.
    Unselect,
    /// Move the cursor back.
    Up,
    /// Advance the cursor.
    Down,
    /// Do nothing.
    Idle,
}

/// The key binding: `q` quits, enter descends, escape returns to the parent,
/// left and `h` unselect, up and `k` move the cursor back, down and `j`
/// advance it; everything else is ignored.
pub open spec fn spec_action(key: Key) -> Action {
    match key {
        Key::Char(c) => if c == 'q' {
            Action::Quit
        } else if c == 'h' {
            Action::Unselect
        } else if c == 'k' {
            Action::Up
        } else if c == 'j' {
            Action::Down
        } else {
            Action::Idle
        },
        Key::Enter => Action::Enter,
        Key::Esc => Action::Back,
        Key::Left => Action::Unselect,
        Key::Up => Action::Up,
        Key::Down => Action::Down,
        Key::Other => Action::Idle,
    }
}

/// Maps a key press to the action it asks for, following the key binding.
pub fn action_for(key: Key) -> (action: Action)
    ensures
        action == spec_action(key),
{
    match key {
        Key::Char(c) => match c {
            'q' => Action::Quit,
            'h' => Action::Unselect,
            'k' => Action::Up,
            'j' => Action::Down,
            _ => Action::Idle,
        },
        Key::Enter => Action::Enter,
        Key::Esc => Action::Back,
        Key::Left => Action::Unselect,
        Key::Up => Action::Up,
        Key::Down => Action::Down,
        Key::Other => Action::Idle,
    }
}

/// One happening the foreground loop waits for: whichever of shutdown, fresh
/// data, and the input-or-tick window is ready first wins the iteration.
pub enum LoopEvent {
    /// The shutdown broadcast was observed.
    Shutdown,
    /// The background poller published fresh names.
    Data(Vec<String>),
    /// A key was pressed within the tick window.
    Input(Key),
    /// The tick window elapsed with no input.
    Tick,
    /// The data channel closed because its peer task exited; an implicit
    /// shutdown trigger.
    ChannelClosed,
}

/// What the loop does after one event.
#[derive(Clone, Copy, Debug)]
pub enum LoopControl {
    /// Leave the loop; when `send_shutdown` holds, broadcast the shutdown
    /// signal exactly once before leaving.
    Stop {
        /// Whether the loop owes the one shutdown broadcast.
        send_shutdown: bool,
    },
    /// Keep looping.
    Continue,
}

impl<Svc: ServiceKind> App<Svc> {
    /// Applies one event. Observed shutdown and a closed data channel stop
    /// the loop without a further broadcast; fresh data replaces the active
    /// level's list; the quit key stops the loop and asks for the one
    /// shutdown broadcast; every other key drives its navigation transition,
    /// whose errors stay local to the iteration; a bare tick changes nothing.
    pub fn on_event(&mut self, event: LoopEvent) -> (control: LoopControl)
        requires
            old(self).wf(),
        ensures
            final(self).wf(),
            (match event {
                LoopEvent::Shutdown => control == (LoopControl::Stop { send_shutdown: false })
                    && *final(self) == *old(self),
                LoopEvent::ChannelClosed => control == (LoopControl::Stop {
                    send_shutdown: false,
                }) && *final(self) == *old(self),
                LoopEvent::Data(items) => control == LoopControl::Continue && steps_active_list(
                    *old(self),
                    *final(self),
                    spec_replace(active_list(*old(self)), items@),
                ),
                LoopEvent::Tick => control == LoopControl::Continue && *final(self) == *old(self),
                LoopEvent::Input(key) => (match spec_action(key) {
                    Action::Quit => control == (LoopControl::Stop { send_shutdown: true })
                        && *final(self) == *old(self),
                    Action::Enter => control == LoopControl::Continue && (exists|
                        r: Result<(), UnknownVariant>,
                    | enter_rel(*old(self), *final(self), r)),
                    Action::Back => control == LoopControl::Continue && esc_rel(
                        *old(self),
                        *final(self),
                    ),
                    Action::Unselect => control == LoopControl::Continue && steps_active_list(
                        *old(self),
                        *final(self),
                        spec_unselect(active_list(*old(self))),
                    ),
                    Action::Up => control == LoopControl::Continue && steps_active_list(
                        *old(self),
                        *final(self),
                        spec_previous(active_list(*old(self))),
                    ),
                    Action::Down => control == LoopControl::Continue && steps_active_list(
                        *old(self),
                        *final(self),
                        spec_next(active_list(*old(self))),
                    ),
                    Action::Idle => control == LoopControl::Continue && *final(self) == *old(self),
                }),
            }),
    {
        match event {
            LoopEvent::Shutdown => LoopControl::Stop { send_shutdown: false },
            LoopEvent::ChannelClosed => LoopControl::Stop { send_shutdown: false },
            LoopEvent::Data(items) => {
                self.on_data(items);
                LoopControl::Continue
            },
            LoopEvent::Tick => {
                self.on_tick();
                LoopControl::Continue
            },
            LoopEvent::Input(key) => match action_for(key) {
                Action::Quit => LoopControl::Stop { send_shutdown: true },
                Action::Enter => {
                    let result = self.on_select();
                    proof {
                        assert(enter_rel(*old(self), *self, result));
                    }
                    LoopControl::Continue
                },
                Action::Back => {
                    self.on_esc();
                    LoopControl::Continue
                },
                Action::Unselect => {
                    self.on_unselect();
                    LoopControl::Continue
                },
                Action::Up => {
                    self.on_up();
                    LoopControl::Continue
                },
                Action::Down => {
                    self.on_down();
                    LoopControl::Continue
                },
                Action::Idle => LoopControl::Continue,
            },
        }
    }
}

} // verus!
