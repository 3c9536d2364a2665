//! The event model: key states, synchronization codes, and input events.
//!
//! An input event is a plain value: an instant (microseconds since the
//! epoch), an event code (a key or a synchronization code), and a key state.

use vstd::prelude::*;

use crate::errors::Error;
use crate::keycodes::KeyCode;

verus! {

/// The state a key event reports: release, initial press, or the kernel's
/// auto-repeat signal for a key that is still pressed.
#[derive(Clone, Copy, Debug, PartialEq, Eq, Hash, Structural)]
pub enum KeyState {
    Up,
    Down,
    Held,
    NotImplemented,
}

/// The synchronization events the kernel groups gestures with; they are
/// carried through the pipeline untouched.
#[derive(Clone, Copy, Debug, PartialEq, Eq, Hash, Structural)]
pub enum SynCode {
    Report,
    Config,
    MTReport,
    Dropped,
    Max,
}

/// What an input event is about: a key or a synchronization signal.
#[derive(Clone, Copy, Debug, PartialEq, Eq, Hash, Structural)]
pub enum EventCode {
    KeyCode(KeyCode),
    SynCode(SynCode),
}

/// One event as the remapper sees it.  `time` counts microseconds since the
/// epoch.
#[derive(Clone, Copy, Debug, PartialEq, Eq, Hash, Structural)]
pub struct InputEvent {
    pub time: u64,
    pub code: EventCode,
    pub state: KeyState,
}

/// The key state the kernel encodes as an event value: 0 is a release, 1 a
/// press, 2 an auto-repeat; anything else is left unmodeled.
pub open spec fn spec_i32_into_ks(i: i32) -> KeyState {
    if i == 0 {
        KeyState::Up
    } else if i == 1 {
        KeyState::Down
    } else if i == 2 {
        KeyState::Held
    } else {
        KeyState::NotImplemented
    }
}

/// Decodes the kernel's event value into a key state.
pub fn i32_into_ks(i: i32) -> (r: KeyState)
    ensures
        r == spec_i32_into_ks(i),
{
    match i {
        0 => KeyState::Up,
        1 => KeyState::Down,
        2 => KeyState::Held,
        _ => KeyState::NotImplemented,
    }
}

/// Where input events come from.  An implementation owns the physical device;
/// `recv` may block until an event arrives.
pub trait InputEventSource: Send {
    fn recv(&mut self) -> Result<InputEvent, Error>;
}

/// Where output events go.  An implementation owns the virtual device;
/// `send` may block until the event is written.
pub trait InputEventSink: Send {
    fn send(&mut self, e: InputEvent) -> Result<(), Error>;
}

} // verus!
