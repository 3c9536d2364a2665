use qsk::clock::Clock;
use qsk::control_code::ControlCode;
use qsk::errors::CompileErrorKind;
use qsk::events::{EventCode, InputEvent, KeyState};
use qsk::keycodes::KeyCode;
use qsk::layer_composer::LayerComposer;
use qsk::remap::analyze::compile;

const T0: u64 = 1_000_000_000;
const MS: u64 = 1_000;

fn compiled(src: &str) -> LayerComposer {
    let mut c = compile(src).unwrap();
    c.clock = Clock::pinned_at(T0);
    c
}

fn key_ev(t: u64, kc: KeyCode, ks: KeyState) -> InputEvent {
    InputEvent {
        time: t,
        code: EventCode::KeyCode(kc),
        state: ks,
    }
}

const REMAP: &str = "HomerowCodeRight[Active]: {
    F -> TT(Navigation, F),
},
Navigation: {
    J -> DOWN,
},";

// Pure passthrough: a key no layer maps comes back exactly as it went in.
#[test]
fn scenario_pure_passthrough() {
    let mut c = compiled(REMAP);
    let e1 = key_ev(T0, KeyCode::KC_E, KeyState::Down);
    assert_eq!(c.transform_at(e1, T0), Some(vec![ControlCode::InputEvent(e1)]));
    let e2 = key_ev(T0 + MS, KeyCode::KC_E, KeyState::Up);
    assert_eq!(
        c.transform_at(e2, T0 + MS),
        Some(vec![ControlCode::InputEvent(e2)])
    );
}

// A completed hold activates the layer, and the release deactivates it.
#[test]
fn scenario_completed_hold_activates_layer() {
    let mut c = compiled(REMAP);
    let e = key_ev(T0, KeyCode::KC_F, KeyState::Down);
    assert_eq!(c.transform_at(e, T0), None);
    let e = key_ev(T0 + 1000 * MS, KeyCode::KC_F, KeyState::Held);
    assert_eq!(c.transform_at(e, T0 + 1000 * MS), None);
    assert!(c.layers.items[1].active);

    let e = key_ev(T0 + 1100 * MS, KeyCode::KC_J, KeyState::Down);
    assert_eq!(
        c.transform_at(e, T0 + 1100 * MS),
        Some(vec![ControlCode::InputEvent(key_ev(
            T0 + 1100 * MS,
            KeyCode::KC_DOWN,
            KeyState::Down
        ))])
    );
    let e = key_ev(T0 + 1200 * MS, KeyCode::KC_J, KeyState::Up);
    assert_eq!(
        c.transform_at(e, T0 + 1200 * MS),
        Some(vec![ControlCode::InputEvent(key_ev(
            T0 + 1200 * MS,
            KeyCode::KC_DOWN,
            KeyState::Up
        ))])
    );

    let e = key_ev(T0 + 1300 * MS, KeyCode::KC_F, KeyState::Up);
    assert_eq!(c.transform_at(e, T0 + 1300 * MS), None);
    assert!(!c.layers.items[1].active);
}

// A fast tap emits the tapped key: down at the release instant, up one
// microsecond later.
#[test]
fn scenario_fast_tap_emits_key() {
    let mut c = compiled(REMAP);
    let e = key_ev(T0, KeyCode::KC_F, KeyState::Down);
    assert_eq!(c.transform_at(e, T0), None);
    let t1 = T0 + 10 * MS;
    let e = key_ev(t1, KeyCode::KC_F, KeyState::Up);
    assert_eq!(
        c.transform_at(e, t1),
        Some(vec![
            ControlCode::InputEvent(key_ev(t1, KeyCode::KC_F, KeyState::Down)),
            ControlCode::InputEvent(key_ev(t1 + 1, KeyCode::KC_F, KeyState::Up)),
        ])
    );
    assert!(!c.layers.items[1].active);
}

// The exit key resolves to the shutdown order.
#[test]
fn scenario_exit_key() {
    let mut c = compiled(REMAP);
    let e = key_ev(T0, KeyCode::KC_PAUSE, KeyState::Down);
    assert_eq!(c.transform_at(e, T0), Some(vec![ControlCode::Exit]));
}

// A layer resolved by its name behaves like one resolved by position.
#[test]
fn scenario_layer_resolved_by_name() {
    let mut c = compiled(
        "HomerowCodeRight[Active]: {
            F -> TapToggle(Navigation, F),
        },
        Navigation: {
            J -> DOWN,
        },",
    );
    let e = key_ev(T0, KeyCode::KC_F, KeyState::Down);
    assert_eq!(c.transform_at(e, T0), None);
    let e = key_ev(T0 + 1000 * MS, KeyCode::KC_F, KeyState::Held);
    assert_eq!(c.transform_at(e, T0 + 1000 * MS), None);
    assert!(c.layers.items[1].active);
    let e = key_ev(T0 + 1100 * MS, KeyCode::KC_J, KeyState::Down);
    assert_eq!(
        c.transform_at(e, T0 + 1100 * MS),
        Some(vec![ControlCode::InputEvent(key_ev(
            T0 + 1100 * MS,
            KeyCode::KC_DOWN,
            KeyState::Down
        ))])
    );
}

// A dangling layer reference is rejected at the offending token, and the
// message lists the declared layer names.
#[test]
fn scenario_dangling_layer_reference() {
    let src = "ModLayer[Active]: { F -> TT(NoSuchLayer, F) }, Navigation: { J -> DOWN },";
    let err = compile(src).unwrap_err();
    assert_eq!(err.pos, src.find("NoSuchLayer").unwrap());
    match &err.kind {
        CompileErrorKind::DanglingLayerRef { known_layers } => {
            assert_eq!(known_layers, &vec!["ModLayer".to_string(), "Navigation".to_string()]);
        }
        other => panic!("wrong error kind: {:?}", other),
    }
    let msg = err.message();
    assert!(msg.contains("layer reference does not exist"));
    assert!(msg.contains("ModLayer"));
    assert!(msg.contains("Navigation"));
}

// An unsupported layer option is rejected at the option's position.
#[test]
fn unsupported_layer_option() {
    let src = "ModLayer[Wiggly]: { F -> KC_F },";
    let err = compile(src).unwrap_err();
    assert_eq!(err.kind, CompileErrorKind::InvalidLayerOption);
    assert_eq!(err.pos, src.find("Wiggly").unwrap());
}

#[test]
fn invalid_key_function() {
    let src = "A: { F -> Wobble(Navigation, F) },";
    let err = compile(src).unwrap_err();
    assert_eq!(err.kind, CompileErrorKind::InvalidKeyFunction);
    assert_eq!(err.pos, src.find("Wobble").unwrap());
    assert!(err.message().contains("TT, TapToggle, Exit"));
}

#[test]
fn invalid_key_code_in_map() {
    let src = "A: { NOTAKEY -> F },";
    let err = compile(src).unwrap_err();
    assert_eq!(err.kind, CompileErrorKind::InvalidKeyCode);
    assert_eq!(err.pos, src.find("NOTAKEY").unwrap());
}

#[test]
fn invalid_key_code_in_function() {
    let src = "A: { F -> TT(A, NOTAKEY) },";
    let err = compile(src).unwrap_err();
    assert_eq!(err.kind, CompileErrorKind::InvalidKeyCode);
    assert_eq!(err.pos, src.find("NOTAKEY").unwrap());
}

#[test]
fn exit_with_argument() {
    let src = "A: { F -> Exit(Now) },";
    let err = compile(src).unwrap_err();
    assert_eq!(err.kind, CompileErrorKind::UnexpectedArgument);
    assert_eq!(err.pos, src.find("Now").unwrap());
}

#[test]
fn tap_toggle_missing_arguments() {
    let src = "A: { F -> TT() },";
    let err = compile(src).unwrap_err();
    assert_eq!(err.kind, CompileErrorKind::MissingLayerRefArgument);

    let src = "A: { F -> TT(A) },";
    let err = compile(src).unwrap_err();
    assert_eq!(err.kind, CompileErrorKind::MissingKeyCodeArgument);

    let src = "A: { F -> TT(A, F, J) },";
    let err = compile(src).unwrap_err();
    assert_eq!(err.kind, CompileErrorKind::UnexpectedArgument);
    assert_eq!(err.pos, src.find("J").unwrap());
}

#[test]
fn duplicate_layer_names() {
    let src = "A: { F -> KC_F }, A: { J -> DOWN },";
    let err = compile(src).unwrap_err();
    assert_eq!(err.kind, CompileErrorKind::LayerValidation);
    assert_eq!(err.pos, src.rfind("A:").unwrap());
}

#[test]
fn parse_error_positions() {
    let err = compile("A { F -> KC_F },").unwrap_err();
    assert_eq!(err.kind, CompileErrorKind::ExpectedColon);

    let err = compile("A: F -> KC_F,").unwrap_err();
    assert_eq!(err.kind, CompileErrorKind::ExpectedLayerBody);

    let err = compile("A: { F KC_F },").unwrap_err();
    assert_eq!(err.kind, CompileErrorKind::ExpectedArrow);

    let err = compile("A: { F -> KC_F").unwrap_err();
    assert_eq!(err.kind, CompileErrorKind::UnexpectedEnd);

    let err = compile("A: { F -> KC_F } B").unwrap_err();
    assert_eq!(err.kind, CompileErrorKind::UnexpectedToken);

    let src = "A?: { F -> KC_F },";
    let err = compile(src).unwrap_err();
    assert_eq!(err.kind, CompileErrorKind::UnexpectedToken);
    assert_eq!(err.pos, src.find('?').unwrap());
}

// An empty description compiles to an empty table: everything passes
// through.
#[test]
fn empty_description_is_passthrough() {
    let mut c = compiled("");
    let e = key_ev(T0, KeyCode::KC_Q, KeyState::Down);
    assert_eq!(c.transform_at(e, T0), Some(vec![ControlCode::InputEvent(e)]));
}

// When the same key is mapped twice in one layer, the later map wins.
#[test]
fn later_map_for_same_key_wins() {
    let mut c = compiled("A[Active]: { J -> UP, J -> DOWN },");
    let e = key_ev(T0, KeyCode::KC_J, KeyState::Down);
    assert_eq!(
        c.transform_at(e, T0),
        Some(vec![ControlCode::InputEvent(key_ev(
            T0,
            KeyCode::KC_DOWN,
            KeyState::Down
        ))])
    );
}

// Exactly at the threshold a release neither taps nor leaves the timer: the
// boundary is strict on both sides.
#[test]
fn threshold_boundary() {
    let mut c = compiled(REMAP);
    let e = key_ev(T0, KeyCode::KC_F, KeyState::Down);
    assert_eq!(c.transform_at(e, T0), None);
    assert_eq!(c.timers.entries.len(), 1);
    // exactly 180 ms later: not strictly under the threshold, so no tap
    let t1 = T0 + 180 * MS;
    let e = key_ev(t1, KeyCode::KC_F, KeyState::Up);
    assert_eq!(c.transform_at(e, t1), None);
    assert_eq!(c.timers.entries.len(), 0);
}

// A full cycle always retires the timer, tap or toggle.
#[test]
fn timer_cleared_after_cycle() {
    let mut c = compiled(REMAP);
    assert_eq!(c.timers.entries.len(), 0);
    let e = key_ev(T0, KeyCode::KC_F, KeyState::Down);
    c.transform_at(e, T0);
    assert_eq!(c.timers.entries.len(), 1);
    let e = key_ev(T0 + 10 * MS, KeyCode::KC_F, KeyState::Up);
    c.transform_at(e, T0 + 10 * MS);
    assert_eq!(c.timers.entries.len(), 0);

    let e = key_ev(T0, KeyCode::KC_F, KeyState::Down);
    c.transform_at(e, T0);
    assert_eq!(c.timers.entries.len(), 1);
    let e = key_ev(T0 + 1000 * MS, KeyCode::KC_F, KeyState::Held);
    c.transform_at(e, T0 + 1000 * MS);
    assert_eq!(c.timers.entries.len(), 0);
    let e = key_ev(T0 + 1100 * MS, KeyCode::KC_F, KeyState::Up);
    c.transform_at(e, T0 + 1100 * MS);
    assert_eq!(c.timers.entries.len(), 0);
}

// The timer table never outgrows the pressed tap-toggle keys.
#[test]
fn timer_table_stays_within_pressed_keys() {
    let mut c = compiled(
        "A[Active]: { F -> TT(Nav, F), D -> TT(Nav, D) }, Nav: { J -> DOWN },",
    );
    let mut pressed = 0;
    let e = key_ev(T0, KeyCode::KC_F, KeyState::Down);
    c.transform_at(e, T0);
    pressed += 1;
    assert!(c.timers.entries.len() <= pressed);
    let e = key_ev(T0 + MS, KeyCode::KC_D, KeyState::Down);
    c.transform_at(e, T0 + MS);
    pressed += 1;
    assert!(c.timers.entries.len() <= pressed);
    let e = key_ev(T0 + 2 * MS, KeyCode::KC_F, KeyState::Up);
    c.transform_at(e, T0 + 2 * MS);
    pressed -= 1;
    assert!(c.timers.entries.len() <= pressed);
    let e = key_ev(T0 + 3 * MS, KeyCode::KC_D, KeyState::Up);
    c.transform_at(e, T0 + 3 * MS);
    pressed -= 1;
    assert!(c.timers.entries.len() <= pressed);
}
