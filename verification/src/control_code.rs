//! The transformer's output alphabet.

use vstd::prelude::*;

use crate::events::InputEvent;
use crate::keycodes::KeyCode;

verus! {

/// Names a layer either by its position in the table or by its name; named
/// references resolve when the table is built.
#[derive(Debug, PartialEq, Eq)]
pub enum LayerRef {
    ByIndex(usize),
    ByName(String),
}

impl Clone for LayerRef {
    fn clone(&self) -> (r: Self)
        ensures
            r == *self,
    {
        match self {
            LayerRef::ByIndex(i) => LayerRef::ByIndex(*i),
            LayerRef::ByName(n) => LayerRef::ByName(n.clone()),
        }
    }
}

/// One unit of transformer output: a concrete event for the sink, a
/// source-side rewrite target (only ever inside a layer's map), a tap-toggle
/// instruction, or the order to shut the pipeline down.
#[derive(Debug, PartialEq, Eq)]
pub enum ControlCode {
    InputEvent(InputEvent),
    KeyMap(KeyCode),
    TapToggle(LayerRef, KeyCode),
    Exit,
}

impl Clone for ControlCode {
    fn clone(&self) -> (r: Self)
        ensures
            r == *self,
    {
        match self {
            ControlCode::InputEvent(e) => ControlCode::InputEvent(*e),
            ControlCode::KeyMap(k) => ControlCode::KeyMap(*k),
            ControlCode::TapToggle(lr, k) => ControlCode::TapToggle(lr.clone(), *k),
            ControlCode::Exit => ControlCode::Exit,
        }
    }
}

} // verus!
