use qsk::remap::parse::{
    parse, ControlCode, Ident, Key, KeyFunction, KeyFunctionName, KeyFunctionParameter,
    KeyFunctionParameters, KeyMaps, LayerBody, StringParameter,
};

#[test]
fn valid_syntax() {
    parse(
        "ModLayer[Active]: {
            F -> TT(Navigation, F),
        },
        Navigation: {
            END -> Exit(),
            Y -> HOME,
            U -> PAGEDOWN,
            I -> PAGEUP,
            O -> END,
            H -> LEFT,
            J -> DOWN,
            K -> UP,
            SEMICOLON -> RIGHT,
        },",
    )
    .unwrap();
}

#[test]
fn parse_control_code_key() {
    // validate that F is parsed and its canonical form is "KC_F"
    let parsed = ControlCode::parse_str("F").unwrap();
    let expected = ControlCode::Key(Key(Ident::new("F".to_string(), 0)));
    assert_eq!(parsed, expected);

    if let ControlCode::Key(key) = parsed {
        assert_eq!(key.to_string(), String::from("KC_F"));
    } else {
        assert!(false);
    }

    // validate that KC_F is parsed and its canonical form is "KC_F"
    let parsed = ControlCode::parse_str("KC_F").unwrap();
    let expected = ControlCode::Key(Key(Ident::new("KC_F".to_string(), 0)));
    assert_eq!(parsed, expected);

    if let ControlCode::Key(key) = parsed {
        assert_eq!(key.to_string(), String::from("KC_F"));
    } else {
        assert!(false);
    }
}

fn control_code_fn(name: &str, params: Vec<&str>) -> ControlCode {
    let mut expected_params: Vec<KeyFunctionParameter> = Vec::new();
    for param in params {
        expected_params.push(KeyFunctionParameter::StringParameter(StringParameter(
            Ident::new(param.to_string(), 0),
        )));
    }

    ControlCode::Function(KeyFunction {
        name: KeyFunctionName(Ident::new(name.to_string(), 0)),
        params: KeyFunctionParameters(expected_params),
    })
}

#[test]
fn parse_control_code_function() {
    let parsed = ControlCode::parse_str("TapToggle(Navigation, F)").unwrap();
    let expected = control_code_fn("TapToggle", vec!["Navigation", "F"]);
    assert_eq!(parsed, expected);

    let parsed = ControlCode::parse_str("TT(Navigation, F)").unwrap();
    let expected = control_code_fn("TT", vec!["Navigation", "F"]);
    assert_eq!(parsed, expected);
}

#[test]
fn parse_keymap() {
    let parsed = KeyMaps::parse_str("F -> TapToggle(Navigation, F)").unwrap();
    let rhs = control_code_fn("TapToggle", vec!["Navigation", "F"]);
    let lhs = Key(Ident::new("F".to_string(), 0));
    let expected = KeyMaps { lhs, rhs };
    assert_eq!(parsed, expected);
}

#[test]
fn parse_layer_body() {
    let parsed = LayerBody::parse_str(
        "{
            Y -> HOME,
            F -> TapToggle(Navigation, F)
        }",
    )
    .unwrap();

    let mut maps: Vec<KeyMaps> = Vec::new();

    // Y -> HOME
    let rhs = ControlCode::Key(Key(Ident::new("HOME".to_string(), 0)));
    let lhs = Key(Ident::new("Y".to_string(), 0));
    maps.push(KeyMaps { lhs, rhs });

    // F -> TapToggle(Navigation, F)
    let rhs = control_code_fn("TapToggle", vec!["Navigation", "F"]);
    let lhs = Key(Ident::new("F".to_string(), 0));
    maps.push(KeyMaps { lhs, rhs });

    let expected = LayerBody { maps };
    assert_eq!(parsed, expected);
}
