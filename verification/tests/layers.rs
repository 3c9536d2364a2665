use qsk::control_code::{ControlCode, LayerRef};
use qsk::errors::Error;
use qsk::events::{EventCode, InputEvent, KeyState, SynCode};
use qsk::keycodes::KeyCode;
use qsk::layer_composer::{LayerComposer, Passthrough};
use qsk::layers::{key, tap_toggle, tap_toggle_by_name, Layer};

fn key_ev(t: u64, kc: KeyCode, ks: KeyState) -> InputEvent {
    InputEvent {
        time: t,
        code: EventCode::KeyCode(kc),
        state: ks,
    }
}

// An inactive layer answers nothing; an active one rewrites its keys and
// leaves unmapped keys alone.
#[test]
fn layer_transform_rewrites_mapped_keys() {
    let layer = Layer::from_entries(
        "navigation".to_string(),
        vec![(KeyCode::KC_J, key(KeyCode::KC_DOWN))],
        true,
    );
    let e = key_ev(7, KeyCode::KC_J, KeyState::Down);
    assert_eq!(
        layer.transform(e),
        Some(vec![ControlCode::InputEvent(key_ev(
            7,
            KeyCode::KC_DOWN,
            KeyState::Down
        ))])
    );
    assert_eq!(layer.transform(key_ev(7, KeyCode::KC_K, KeyState::Down)), None);

    let inactive = Layer::from_entries(
        "navigation".to_string(),
        vec![(KeyCode::KC_J, key(KeyCode::KC_DOWN))],
        false,
    );
    assert_eq!(inactive.transform(e), None);
}

// A tap-toggle directive passes through a layer lookup unchanged.
#[test]
fn layer_transform_passes_tap_toggle_through() {
    let layer = Layer::from_entries(
        "control".to_string(),
        vec![(KeyCode::KC_F, tap_toggle(1, KeyCode::KC_F))],
        true,
    );
    let e = key_ev(7, KeyCode::KC_F, KeyState::Down);
    assert_eq!(
        layer.transform(e),
        Some(vec![ControlCode::TapToggle(
            LayerRef::ByIndex(1),
            KeyCode::KC_F
        )])
    );
}

// Building a table with a reference to a missing layer position fails.
#[test]
fn from_layers_rejects_dangling_index() {
    let layers = vec![Layer::from_entries(
        "control".to_string(),
        vec![(KeyCode::KC_F, tap_toggle(7, KeyCode::KC_F))],
        true,
    )];
    assert_eq!(
        LayerComposer::from_layers(layers).unwrap_err(),
        Error::LayerValidation
    );
}

// Building a table with a reference to a missing layer name fails.
#[test]
fn from_layers_rejects_dangling_name() {
    let layers = vec![Layer::from_entries(
        "control".to_string(),
        vec![(
            KeyCode::KC_F,
            tap_toggle_by_name("no_such_layer".to_string(), KeyCode::KC_F),
        )],
        true,
    )];
    assert_eq!(
        LayerComposer::from_layers(layers).unwrap_err(),
        Error::LayerValidation
    );
}

// Building a table with two layers of the same name fails.
#[test]
fn from_layers_rejects_duplicate_names() {
    let layers = vec![
        Layer::from_entries("a".to_string(), vec![], true),
        Layer::from_entries("a".to_string(), vec![], false),
    ];
    assert_eq!(
        LayerComposer::from_layers(layers).unwrap_err(),
        Error::LayerValidation
    );
}

// Synchronization events match no layer and pass through untouched.
#[test]
fn syn_events_pass_through() {
    let layers = vec![Layer::from_entries(
        "control".to_string(),
        vec![(KeyCode::KC_F, tap_toggle(0, KeyCode::KC_F))],
        true,
    )];
    let mut c = LayerComposer::from_layers(layers).unwrap();
    let e = InputEvent {
        time: 3,
        code: EventCode::SynCode(SynCode::Report),
        state: KeyState::Up,
    };
    assert_eq!(c.transform_at(e, 3), Some(vec![ControlCode::InputEvent(e)]));
}

// The bare passthrough forwards everything but the exit key.
#[test]
fn passthrough_forwards_and_exits() {
    let mut p = Passthrough {};
    let e = key_ev(1, KeyCode::KC_Q, KeyState::Down);
    assert_eq!(p.transform(e), Some(vec![ControlCode::InputEvent(e)]));
    let e = key_ev(2, KeyCode::KC_PAUSE, KeyState::Down);
    assert_eq!(p.transform(e), Some(vec![ControlCode::Exit]));
}

// Layer activation is idempotent and observable.
#[test]
fn activate_and_deactivate() {
    let mut layer = Layer::from_entries("a".to_string(), vec![], false);
    assert!(!layer.active);
    layer.activate();
    assert!(layer.active);
    layer.activate();
    assert!(layer.active);
    layer.deactivate();
    assert!(!layer.active);
}
