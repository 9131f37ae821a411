use crate::keys::Key;
use crate::state::AppEvent;
use vstd::prelude::*;

verus! {

/// How long the event source waits for a key before it emits a tick.
pub const POLL_TIMEOUT_MS: u64 = 250;

/// What one wait on the terminal gave.
#[derive(Clone, Copy, Debug, PartialEq, Eq, Structural)]
pub enum Polled {
    /// The wait elapsed with no input.
    Timeout,
    /// A key was pressed.
    KeyPress(Key),
    /// Some other input arrived: a key release or repeat, a mouse or resize
    /// event.
    Other,
}

/// The event that the source emits for one wait on the terminal: a tick when
/// nothing arrived, the key when one was pressed, nothing for other input.
pub fn event_of_poll(p: Polled) -> (r: Option<AppEvent>)
    ensures
        r == (match p {
            Polled::Timeout => Some(AppEvent::Tick),
            Polled::KeyPress(k) => Some(AppEvent::Input(k)),
            Polled::Other => None,
        }),
{
    match p {
        Polled::Timeout => Some(AppEvent::Tick),
        Polled::KeyPress(k) => Some(AppEvent::Input(k)),
        Polled::Other => None,
    }
}

} // verus!
