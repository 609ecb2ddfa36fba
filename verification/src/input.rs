//! What the navigator does on an input event, as far as that does not
//! depend on the pane: leaving, dismissing a notification, synchronising
//! with the remote device, and handing a key on to the focused pane.

use vstd::prelude::*;

verus! {

/// A key, as far as the navigator tells keys apart before it hands them
/// on.
#[derive(Copy, Clone, Debug, PartialEq, Eq, Structural)]
pub enum Key {
    Esc,
    Char(char),
    /// Any other key.
    Other,
}

/// An input event.
#[derive(Copy, Clone, Debug, PartialEq, Eq, Structural)]
pub enum Event {
    Key(Key),
    Mouse,
    /// Any other event, such as a change of the terminal's size.
    Other,
}

/// What the navigator does next.
#[derive(Copy, Clone, Debug, PartialEq, Eq, Structural)]
pub enum Command {
    /// Leave the navigator.
    Quit,
    /// Dismiss the notification that is shown.
    Dismiss,
    /// Synchronise with the remote device, rebuild the index and refresh
    /// both panes.
    Sync,
    /// Hand the key on to the controller of the panes.
    Forward,
    /// Nothing.
    Ignore,
}

/// The answer to an event: what to do, and whether to draw afterwards.
#[derive(Copy, Clone, Debug, PartialEq, Eq, Structural)]
pub struct Reaction {
    pub command: Command,
    pub redraw: bool,
}

/// The command for the key `key` while `pending` tells whether a
/// notification waits to be dismissed: Escape and `q` leave, the space bar
/// dismisses, `S` synchronises, and every other key goes to the panes unless
/// a notification waits.
pub open spec fn command_for(key: Key, pending: bool) -> Command {
    match key {
        Key::Esc => Command::Quit,
        Key::Char(c) => if c == 'q' {
            Command::Quit
        } else if c == ' ' {
            Command::Dismiss
        } else if c == 'S' {
            Command::Sync
        } else if pending {
            Command::Ignore
        } else {
            Command::Forward
        },
        Key::Other => if pending {
            Command::Ignore
        } else {
            Command::Forward
        },
    }
}

/// The answer to `event`: a key gets its command and is followed by a
/// drawing; the mouse causes neither; any other event only a drawing.
pub open spec fn reaction_to(event: Event, pending: bool) -> Reaction {
    match event {
        Event::Key(key) => Reaction { command: command_for(key, pending), redraw: true },
        Event::Mouse => Reaction { command: Command::Ignore, redraw: false },
        Event::Other => Reaction { command: Command::Ignore, redraw: true },
    }
}

/// The answer to `event` while `pending` tells whether a notification waits
/// to be dismissed.
pub fn react(event: Event, pending: bool) -> (r: Reaction)
    ensures
        r == reaction_to(event, pending),
{
    match event {
        Event::Key(key) => {
            let forward = if pending {
                Command::Ignore
            } else {
                Command::Forward
            };
            let command = match key {
                Key::Esc => Command::Quit,
                Key::Char(c) => if c == 'q' {
                    Command::Quit
                } else if c == ' ' {
                    Command::Dismiss
                } else if c == 'S' {
                    Command::Sync
                } else {
                    forward
                },
                Key::Other => forward,
            };
            Reaction { command, redraw: true }
        },
        Event::Mouse => Reaction { command: Command::Ignore, redraw: false },
        Event::Other => Reaction { command: Command::Ignore, redraw: true },
    }
}

} // verus!
