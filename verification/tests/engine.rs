use qsk::clock::Clock;
use qsk::control_code::{ControlCode, LayerRef};
use qsk::engine::{engine_step, route_control_codes, Transformer};
use qsk::events::{EventCode, InputEvent, KeyState};
use qsk::keycodes::KeyCode;
use qsk::layer_composer::{LayerComposer, Passthrough};
use qsk::recorder::{Listener, Log};

const T0: u64 = 1_000_000_000;

fn key_ev(t: u64, kc: KeyCode, ks: KeyState) -> InputEvent {
    InputEvent {
        time: t,
        code: EventCode::KeyCode(kc),
        state: ks,
    }
}

#[test]
fn lib_it_works() {
    assert_eq!(2 + 2, 4);
}

#[test]
fn engine_it_works() {
    assert_eq!(2 + 2, 4);
}

// Concrete events are forwarded in order; rewrite directives are dropped.
#[test]
fn route_forwards_events_in_order() {
    let e1 = key_ev(T0, KeyCode::KC_A, KeyState::Down);
    let e2 = key_ev(T0 + 1, KeyCode::KC_A, KeyState::Up);
    let ccs = vec![
        ControlCode::InputEvent(e1),
        ControlCode::KeyMap(KeyCode::KC_B),
        ControlCode::TapToggle(LayerRef::ByIndex(0), KeyCode::KC_C),
        ControlCode::InputEvent(e2),
    ];
    let (events, exit) = route_control_codes(&ccs);
    assert_eq!(events, vec![e1, e2]);
    assert!(!exit);
}

// The shutdown order stops the walk: nothing after it is forwarded.
#[test]
fn route_stops_at_exit() {
    let e1 = key_ev(T0, KeyCode::KC_A, KeyState::Down);
    let e2 = key_ev(T0 + 1, KeyCode::KC_A, KeyState::Up);
    let ccs = vec![
        ControlCode::InputEvent(e1),
        ControlCode::Exit,
        ControlCode::InputEvent(e2),
    ];
    let (events, exit) = route_control_codes(&ccs);
    assert_eq!(events, vec![e1]);
    assert!(exit);
}

// One step of the transform task: a plain key is forwarded, the exit key
// raises the shutdown flag.
#[test]
fn engine_step_forwards_and_exits() {
    let mut t = Transformer::Passthrough(Passthrough {});
    let e = key_ev(T0, KeyCode::KC_A, KeyState::Down);
    let (events, exit) = engine_step(&mut t, e);
    assert_eq!(events, vec![e]);
    assert!(!exit);

    let e = key_ev(T0, KeyCode::KC_PAUSE, KeyState::Down);
    let (events, exit) = engine_step(&mut t, e);
    assert_eq!(events, vec![]);
    assert!(exit);
}

// The recorder is a pass-through: the wrapped transformer answers exactly as
// it would bare, and the notes hold the event and its answers.
#[test]
fn recorder_is_transparent() {
    let mut c = LayerComposer::from_layers(Vec::new()).unwrap();
    c.clock = Clock::pinned_at(T0);
    let mut bare = LayerComposer::from_layers(Vec::new()).unwrap();
    bare.clock = Clock::pinned_at(T0);

    let mut listener = Listener::wrap(Transformer::Composer(c));
    let e = key_ev(T0, KeyCode::KC_A, KeyState::Down);
    let wrapped_answer = listener.transform(e);
    let bare_answer = bare.transform(e);
    assert_eq!(wrapped_answer, bare_answer);

    let log = listener.drain_log();
    assert_eq!(
        log,
        vec![
            Log::In(e),
            Log::Out(ControlCode::InputEvent(e)),
        ]
    );
    assert_eq!(listener.drain_log(), vec![]);
}

// The exit key's resolution is recorded too.
#[test]
fn recorder_notes_exit() {
    let mut listener = Listener::wrap(Transformer::Passthrough(Passthrough {}));
    let e = key_ev(T0, KeyCode::KC_PAUSE, KeyState::Down);
    let answer = listener.transform(e);
    assert_eq!(answer, Some(vec![ControlCode::Exit]));
    assert_eq!(listener.drain_log(), vec![Log::In(e), Log::Out(ControlCode::Exit)]);
}
