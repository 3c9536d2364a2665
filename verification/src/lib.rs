//! Core of a layered keyboard remapper.
//!
//! Input events read from a physical keyboard are pushed through a stack of
//! layers; the first active layer that maps the event's key decides what the
//! virtual keyboard sees.  Tap-toggle keys act as an ordinary key when tapped
//! and shift into a layer when held past a threshold.  A small declarative
//! language compiles remap descriptions into the layer table.

use vstd::prelude::*;

pub mod clock;
pub mod control_code;
pub mod engine;
pub mod errors;
pub mod events;
pub mod keycodes;
pub mod layer_composer;
pub mod layers;
pub mod recorder;
pub mod remap;
pub mod strings;
pub mod timers;

verus! {

/// Microseconds a tap-toggle key must be held before its layer activates.
pub const HOLD_THRESHOLD_MICROS: u64 = 180000;

} // verus!
