use qsk::events::{i32_into_ks, EventCode, InputEvent, KeyState, SynCode};
use qsk::keycodes::KeyCode;
use qsk::strings::{canonical_key_name, str_eq};

// The numeric table matches the kernel's key numbers.
#[test]
fn key_code_numbers_match_evdev() {
    assert_eq!(KeyCode::KC_RESERVED.to_numeric(), 0);
    assert_eq!(KeyCode::KC_ESC.to_numeric(), 1);
    assert_eq!(KeyCode::KC_F.to_numeric(), 33);
    assert_eq!(KeyCode::KC_HOME.to_numeric(), 102);
    assert_eq!(KeyCode::KC_PAUSE.to_numeric(), 119);
    assert_eq!(KeyCode::KC_DOWN.to_numeric(), 108);
    assert_eq!(KeyCode::KC_MAX.to_numeric(), 767);
}

#[test]
fn key_code_from_numeric() {
    assert_eq!(KeyCode::from_numeric(33), Some(KeyCode::KC_F));
    assert_eq!(KeyCode::from_numeric(119), Some(KeyCode::KC_PAUSE));
    assert_eq!(KeyCode::from_numeric(102), Some(KeyCode::KC_HOME));
    // a hole in the table
    assert_eq!(KeyCode::from_numeric(84), None);
    assert_eq!(KeyCode::from_numeric(9999), None);
}

#[test]
fn key_code_round_trips_through_numeric() {
    for n in 0u16..1000 {
        if let Some(kc) = KeyCode::from_numeric(n) {
            assert_eq!(kc.to_numeric(), n);
        }
    }
}

#[test]
fn key_code_from_name_accepts_both_spellings() {
    assert_eq!(KeyCode::from_name("KC_F"), Some(KeyCode::KC_F));
    assert_eq!(KeyCode::from_name("F"), Some(KeyCode::KC_F));
    assert_eq!(KeyCode::from_name("SEMICOLON"), Some(KeyCode::KC_SEMICOLON));
    assert_eq!(KeyCode::from_name("KC_PAUSE"), Some(KeyCode::KC_PAUSE));
    assert_eq!(KeyCode::from_name("NOTAKEY"), None);
    assert_eq!(KeyCode::from_name(""), None);
    // the sentinel has no parseable name
    assert_eq!(KeyCode::from_name("NotImplemented"), None);
}

#[test]
fn canonical_names() {
    assert_eq!(canonical_key_name("F"), "KC_F".to_string());
    assert_eq!(canonical_key_name("KC_F"), "KC_F".to_string());
    assert_eq!(canonical_key_name("HOME"), "KC_HOME".to_string());
}

#[test]
fn string_equality() {
    assert!(str_eq("abc", "abc"));
    assert!(!str_eq("abc", "abd"));
    assert!(!str_eq("abc", "ab"));
    assert!(str_eq("", ""));
}

#[test]
fn kernel_values_decode_to_key_states() {
    assert_eq!(i32_into_ks(0), KeyState::Up);
    assert_eq!(i32_into_ks(1), KeyState::Down);
    assert_eq!(i32_into_ks(2), KeyState::Held);
    assert_eq!(i32_into_ks(3), KeyState::NotImplemented);
    assert_eq!(i32_into_ks(-1), KeyState::NotImplemented);
}

#[test]
fn events_are_plain_values() {
    let e = InputEvent {
        time: 42,
        code: EventCode::KeyCode(KeyCode::KC_A),
        state: KeyState::Down,
    };
    let f = e;
    assert_eq!(e, f);
    assert_ne!(
        e,
        InputEvent {
            time: 42,
            code: EventCode::SynCode(SynCode::Report),
            state: KeyState::Down,
        }
    );
}
