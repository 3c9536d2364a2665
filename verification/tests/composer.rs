use qsk::clock::Clock;
use qsk::control_code::ControlCode;
use qsk::events::{EventCode, InputEvent, KeyState};
use qsk::keycodes::KeyCode;
use qsk::layer_composer::LayerComposer;
use qsk::layers::{key, tap_toggle, tap_toggle_by_name, Layer, LAYERS};

const T0: u64 = 1_000_000_000;
const MS: u64 = 1_000;

fn ev(th: &LayerComposer, kc: KeyCode, ks: KeyState) -> InputEvent {
    InputEvent {
        time: th.now_micros(),
        code: EventCode::KeyCode(kc),
        state: ks,
    }
}

fn validate_single(th: &mut LayerComposer, input: InputEvent, output: Option<InputEvent>) {
    let result = th.transform(input);
    match output {
        None => assert_eq!(result, None),
        Some(e) => assert_eq!(result, Some(vec![ControlCode::InputEvent(e)])),
    }
}

fn validate_multiple(th: &mut LayerComposer, input: InputEvent, output: Vec<ControlCode>) {
    assert_eq!(th.transform(input), Some(output));
}

fn navigation_entries() -> Vec<(KeyCode, Vec<ControlCode>)> {
    vec![
        (KeyCode::KC_Y, key(KeyCode::KC_HOME)),
        (KeyCode::KC_U, key(KeyCode::KC_PAGEDOWN)),
        (KeyCode::KC_I, key(KeyCode::KC_PAGEUP)),
        (KeyCode::KC_O, key(KeyCode::KC_END)),
        (KeyCode::KC_H, key(KeyCode::KC_LEFT)),
        (KeyCode::KC_J, key(KeyCode::KC_DOWN)),
        (KeyCode::KC_K, key(KeyCode::KC_UP)),
        (KeyCode::KC_SEMICOLON, key(KeyCode::KC_RIGHT)),
    ]
}

fn test_layer_composer() -> LayerComposer {
    let mut layers: Vec<Layer> = Vec::new();
    layers.insert(
        LAYERS::HomerowCodeRight.to_usize(),
        Layer::from_entries(
            "control".to_string(),
            vec![
                (
                    KeyCode::KC_F,
                    tap_toggle(LAYERS::Navigation.to_usize(), KeyCode::KC_F),
                ),
                (
                    KeyCode::KC_D,
                    tap_toggle_by_name("navigation".to_string(), KeyCode::KC_D),
                ),
            ],
            true,
        ),
    );
    layers.insert(
        LAYERS::Navigation.to_usize(),
        Layer::from_entries("navigation".to_string(), navigation_entries(), false),
    );
    let mut th = LayerComposer::from_layers(layers).unwrap();
    th.clock = Clock::pinned_at(T0);
    th
}

#[test]
fn fake_now() {
    let mut clock = Clock::pinned_at(T0);
    let t1 = clock.now();
    clock.advance(1000 * MS);
    let mut t2 = clock.now();
    assert_eq!(t2, t1 + 1000 * MS);

    let c_clock = clock.clone();
    t2 = c_clock.now();
    assert_eq!(t2, t1 + 1000 * MS);
}

#[test]
fn passthrough_no_active_layers() {
    let mut th = test_layer_composer();
    assert_eq!(th.layers.items[0].active, true);
    assert_eq!(th.layers.items[1].active, false);

    let e = ev(&th, KeyCode::KC_E, KeyState::Down);
    validate_single(&mut th, e, Some(e));
    let e = ev(&th, KeyCode::KC_E, KeyState::Up);
    validate_single(&mut th, e, Some(e));

    let e = ev(&th, KeyCode::KC_K, KeyState::Down);
    validate_single(&mut th, e, Some(e));
    let e = ev(&th, KeyCode::KC_K, KeyState::Up);
    validate_single(&mut th, e, Some(e));

    let e = ev(&th, KeyCode::KC_J, KeyState::Down);
    validate_single(&mut th, e, Some(e));
    let e = ev(&th, KeyCode::KC_J, KeyState::Up);
    validate_single(&mut th, e, Some(e));
}

#[test]
fn tap_toggle_toggle_by_layer_name() {
    let mut th = test_layer_composer();
    assert_eq!(th.layers.items[0].active, true);
    assert_eq!(th.layers.items[1].active, false);

    // initial button down of a tap toggle key should not produce any
    // characters and should not set the toggle layer to active
    let e = ev(&th, KeyCode::KC_D, KeyState::Down);
    validate_single(&mut th, e, None);
    assert_eq!(th.layers.items[1].active, false);

    // layer doesn't get set to active until the next Held key after the tap
    // toggle timeout
    th.advance_clock(1000 * MS);
    assert_eq!(th.layers.items[1].active, false);
    let e = ev(&th, KeyCode::KC_D, KeyState::Held);
    validate_single(&mut th, e, None);
    assert_eq!(th.layers.items[1].active, true);

    // once layer is active, key transformation should take place based on
    // definitions in the activated layer
    let e = ev(&th, KeyCode::KC_J, KeyState::Down);
    let expected = ev(&th, KeyCode::KC_DOWN, KeyState::Down);
    validate_single(&mut th, e, Some(expected));
    let e = ev(&th, KeyCode::KC_J, KeyState::Up);
    let expected = ev(&th, KeyCode::KC_DOWN, KeyState::Up);
    validate_single(&mut th, e, Some(expected));

    // if layer is toggled, releasing tap toggle key after tap toggle timeout
    // should result in no keyboard events and should result in the layer
    // being disabled once again
    let e = ev(&th, KeyCode::KC_D, KeyState::Up);
    validate_single(&mut th, e, None);
    assert_eq!(th.layers.items[1].active, false);
    let e = ev(&th, KeyCode::KC_J, KeyState::Down);
    let expected = ev(&th, KeyCode::KC_J, KeyState::Down);
    validate_single(&mut th, e, Some(expected));
    let e = ev(&th, KeyCode::KC_J, KeyState::Up);
    let expected = ev(&th, KeyCode::KC_J, KeyState::Up);
    validate_single(&mut th, e, Some(expected));
}

#[test]
fn tap_toggle_toggle() {
    let mut th = test_layer_composer();
    assert_eq!(th.layers.items[0].active, true);
    assert_eq!(th.layers.items[1].active, false);

    let e = ev(&th, KeyCode::KC_F, KeyState::Down);
    validate_single(&mut th, e, None);
    assert_eq!(th.layers.items[1].active, false);

    th.advance_clock(1000 * MS);
    assert_eq!(th.layers.items[1].active, false);
    let e = ev(&th, KeyCode::KC_F, KeyState::Held);
    validate_single(&mut th, e, None);
    assert_eq!(th.layers.items[1].active, true);

    let e = ev(&th, KeyCode::KC_J, KeyState::Down);
    let expected = ev(&th, KeyCode::KC_DOWN, KeyState::Down);
    validate_single(&mut th, e, Some(expected));
    let e = ev(&th, KeyCode::KC_J, KeyState::Up);
    let expected = ev(&th, KeyCode::KC_DOWN, KeyState::Up);
    validate_single(&mut th, e, Some(expected));

    let e = ev(&th, KeyCode::KC_F, KeyState::Up);
    validate_single(&mut th, e, None);
    assert_eq!(th.layers.items[1].active, false);
    let e = ev(&th, KeyCode::KC_J, KeyState::Down);
    let expected = ev(&th, KeyCode::KC_J, KeyState::Down);
    validate_single(&mut th, e, Some(expected));
    let e = ev(&th, KeyCode::KC_J, KeyState::Up);
    let expected = ev(&th, KeyCode::KC_J, KeyState::Up);
    validate_single(&mut th, e, Some(expected));
}

#[test]
fn tap_toggle_tap() {
    let mut th = test_layer_composer();
    let mut expected: Vec<ControlCode> = Vec::new();
    assert_eq!(th.layers.items[0].active, true);
    assert_eq!(th.layers.items[1].active, false);

    // if we release the key within the tap toggle timeout, then we should
    // get the tapped key's usual output in sequence
    let e = ev(&th, KeyCode::KC_F, KeyState::Down);
    validate_single(&mut th, e, None);

    let down = ev(&th, KeyCode::KC_F, KeyState::Down);
    let mut up = ev(&th, KeyCode::KC_F, KeyState::Up);
    up.time = down.time + 1;
    expected.push(ControlCode::InputEvent(down));
    expected.push(ControlCode::InputEvent(up));
    let e = ev(&th, KeyCode::KC_F, KeyState::Up);
    validate_multiple(&mut th, e, expected);
}

#[test]
fn key_up_and_down() {
    let th = test_layer_composer();
    let mut expected: Vec<ControlCode> = Vec::new();

    let down = ev(&th, KeyCode::KC_F, KeyState::Down);
    let mut up = ev(&th, KeyCode::KC_F, KeyState::Up);
    up.time = down.time + 1;
    expected.push(ControlCode::InputEvent(down));
    expected.push(ControlCode::InputEvent(up));

    let actual = th.key_up_and_down(KeyCode::KC_F);
    assert_eq!(actual, expected);
}

// The older layer table of the same remap: a single tap-toggle bound by
// position, as the early revisions wired it.
fn lib_layer_composer() -> LayerComposer {
    let mut layers: Vec<Layer> = Vec::new();
    layers.insert(
        LAYERS::HomerowCodeRight.to_usize(),
        Layer::from_entries(
            "homerow_code_right".to_string(),
            vec![(
                KeyCode::KC_F,
                tap_toggle(LAYERS::Navigation.to_usize(), KeyCode::KC_F),
            )],
            true,
        ),
    );
    layers.insert(
        LAYERS::Navigation.to_usize(),
        Layer::from_entries("navigation".to_string(), navigation_entries(), false),
    );
    let mut th = LayerComposer::from_layers(layers).unwrap();
    th.clock = Clock::pinned_at(T0);
    th
}

#[test]
fn lib_fake_now() {
    let mut clock = Clock::pinned_at(T0);
    let t1 = clock.now();
    clock.advance(1000 * MS);
    let mut t2 = clock.now();
    assert_eq!(t2, t1 + 1000 * MS);

    let c_clock = clock.clone();
    t2 = c_clock.now();
    assert_eq!(t2, t1 + 1000 * MS);
}

#[test]
fn lib_passthrough_no_active_layers() {
    let mut th = lib_layer_composer();
    assert_eq!(th.layers.items[0].active, true);
    assert_eq!(th.layers.items[1].active, false);

    let e = ev(&th, KeyCode::KC_E, KeyState::Down);
    validate_single(&mut th, e, Some(e));
    let e = ev(&th, KeyCode::KC_E, KeyState::Up);
    validate_single(&mut th, e, Some(e));

    let e = ev(&th, KeyCode::KC_K, KeyState::Down);
    validate_single(&mut th, e, Some(e));
    let e = ev(&th, KeyCode::KC_K, KeyState::Up);
    validate_single(&mut th, e, Some(e));

    let e = ev(&th, KeyCode::KC_J, KeyState::Down);
    validate_single(&mut th, e, Some(e));
    let e = ev(&th, KeyCode::KC_J, KeyState::Up);
    validate_single(&mut th, e, Some(e));
}

#[test]
fn lib_tap_toggle_toggle() {
    let mut th = lib_layer_composer();
    assert_eq!(th.layers.items[0].active, true);
    assert_eq!(th.layers.items[1].active, false);

    let e = ev(&th, KeyCode::KC_F, KeyState::Down);
    validate_single(&mut th, e, None);
    assert_eq!(th.layers.items[1].active, false);

    th.advance_clock(1000 * MS);
    assert_eq!(th.layers.items[1].active, false);
    let e = ev(&th, KeyCode::KC_F, KeyState::Held);
    validate_single(&mut th, e, None);
    assert_eq!(th.layers.items[1].active, true);

    let e = ev(&th, KeyCode::KC_J, KeyState::Down);
    let expected = ev(&th, KeyCode::KC_DOWN, KeyState::Down);
    validate_single(&mut th, e, Some(expected));
    let e = ev(&th, KeyCode::KC_J, KeyState::Up);
    let expected = ev(&th, KeyCode::KC_DOWN, KeyState::Up);
    validate_single(&mut th, e, Some(expected));

    let e = ev(&th, KeyCode::KC_F, KeyState::Up);
    validate_single(&mut th, e, None);
    assert_eq!(th.layers.items[1].active, false);
    let e = ev(&th, KeyCode::KC_J, KeyState::Down);
    let expected = ev(&th, KeyCode::KC_J, KeyState::Down);
    validate_single(&mut th, e, Some(expected));
    let e = ev(&th, KeyCode::KC_J, KeyState::Up);
    let expected = ev(&th, KeyCode::KC_J, KeyState::Up);
    validate_single(&mut th, e, Some(expected));
}

#[test]
fn lib_tap_toggle_tap() {
    let mut th = lib_layer_composer();
    assert_eq!(th.layers.items[0].active, true);
    assert_eq!(th.layers.items[1].active, false);

    // if we release the key within the tap toggle timeout, then we should
    // get the tapped key's usual output in sequence; the synthesized release
    // comes one microsecond after the press
    let e = ev(&th, KeyCode::KC_F, KeyState::Down);
    validate_single(&mut th, e, None);
    th.advance_clock(10 * MS);
    let down = ev(&th, KeyCode::KC_F, KeyState::Down);
    let mut up = ev(&th, KeyCode::KC_F, KeyState::Up);
    up.time = down.time + 1;
    let e = ev(&th, KeyCode::KC_F, KeyState::Up);
    validate_multiple(
        &mut th,
        e,
        vec![ControlCode::InputEvent(down), ControlCode::InputEvent(up)],
    );
}

#[test]
fn transformer_fake_now() {
    let mut clock = Clock::pinned_at(T0);
    let t1 = clock.now();
    clock.advance(1000 * MS);
    let mut t2 = clock.now();
    assert_eq!(t2, t1 + 1000 * MS);

    let c_clock = clock.clone();
    t2 = c_clock.now();
    assert_eq!(t2, t1 + 1000 * MS);
}

#[test]
fn transformer_passthrough_no_active_layers() {
    let mut th = lib_layer_composer();
    assert_eq!(th.layers.items[0].active, true);
    assert_eq!(th.layers.items[1].active, false);

    let e = ev(&th, KeyCode::KC_E, KeyState::Down);
    validate_single(&mut th, e, Some(e));
    let e = ev(&th, KeyCode::KC_E, KeyState::Up);
    validate_single(&mut th, e, Some(e));

    let e = ev(&th, KeyCode::KC_K, KeyState::Down);
    validate_single(&mut th, e, Some(e));
    let e = ev(&th, KeyCode::KC_K, KeyState::Up);
    validate_single(&mut th, e, Some(e));

    let e = ev(&th, KeyCode::KC_J, KeyState::Down);
    validate_single(&mut th, e, Some(e));
    let e = ev(&th, KeyCode::KC_J, KeyState::Up);
    validate_single(&mut th, e, Some(e));

    // initial button down of a tap toggle key should not produce any
    // characters and should not set the toggle layer to active
    let e = ev(&th, KeyCode::KC_F, KeyState::Down);
    validate_single(&mut th, e, None);
    assert_eq!(th.layers.items[1].active, false);

    // layer doesn't get set to active until the next Held key event after
    // the tap toggle timeout
    th.advance_clock(1000 * MS);
    assert_eq!(th.layers.items[1].active, false);
    let e = ev(&th, KeyCode::KC_F, KeyState::Held);
    validate_single(&mut th, e, None);
    assert_eq!(th.layers.items[1].active, true);

    // once layer is active, key transformation should take place based on
    // definitions in the activated layer
    let e = ev(&th, KeyCode::KC_J, KeyState::Down);
    let expected = ev(&th, KeyCode::KC_DOWN, KeyState::Down);
    validate_single(&mut th, e, Some(expected));
    let e = ev(&th, KeyCode::KC_J, KeyState::Up);
    let expected = ev(&th, KeyCode::KC_DOWN, KeyState::Up);
    validate_single(&mut th, e, Some(expected));

    // if layer is toggled, releasing tap toggle key after tap toggle timeout
    // should result in no keyboard events and the layer being disabled again
    let e = ev(&th, KeyCode::KC_F, KeyState::Up);
    validate_single(&mut th, e, None);
    assert_eq!(th.layers.items[1].active, false);
    let e = ev(&th, KeyCode::KC_J, KeyState::Down);
    let expected = ev(&th, KeyCode::KC_J, KeyState::Down);
    validate_single(&mut th, e, Some(expected));
    let e = ev(&th, KeyCode::KC_J, KeyState::Up);
    let expected = ev(&th, KeyCode::KC_J, KeyState::Up);
    validate_single(&mut th, e, Some(expected));

    // if we release the key within the tap toggle timeout, then we should
    // get the tapped key's usual output in sequence, the synthesized release
    // one microsecond after the press
    let e = ev(&th, KeyCode::KC_F, KeyState::Down);
    validate_single(&mut th, e, None);
    th.advance_clock(10 * MS);
    let down = ev(&th, KeyCode::KC_F, KeyState::Down);
    let mut up = ev(&th, KeyCode::KC_F, KeyState::Up);
    up.time = down.time + 1;
    let e = ev(&th, KeyCode::KC_F, KeyState::Up);
    validate_multiple(
        &mut th,
        e,
        vec![ControlCode::InputEvent(down), ControlCode::InputEvent(up)],
    );
}

#[test]
fn toggle() {}
