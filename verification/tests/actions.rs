use serde_json::Value;
use sts2agent::json::JsonValue;
use sts2agent::model::Action;

fn body_value(a: &Action) -> Value {
    serde_json::from_str(&render_json(&a.request_body())).unwrap()
}

#[test]
fn action_serializes_to_request_body() {
    let a = Action::PlayCard {
        card_index: 0,
        target: Some("JAW_WORM_0".into()),
    };
    let v = body_value(&a);
    assert_eq!(v["action"], "play_card");
    assert_eq!(v["card_index"], 0);
    assert_eq!(v["target"], "JAW_WORM_0");

    let a2 = Action::UsePotion {
        slot: 0,
        target: None,
    };
    let v2 = body_value(&a2);
    assert_eq!(v2["action"], "use_potion");
    assert_eq!(v2["slot"], 0);
    assert!(v2.get("target").is_none());

    let v3 = body_value(&Action::EndTurn);
    let expected: Value = serde_json::from_str(r#"{"action":"end_turn"}"#).unwrap();
    assert_eq!(v3, expected);
}

#[test]
fn action_roundtrip() {
    let cases = vec![
        Action::PlayCard {
            card_index: 2,
            target: Some("KIN_PRIEST_0".into()),
        },
        Action::EndTurn,
        Action::UsePotion {
            slot: 1,
            target: None,
        },
        Action::MenuSelect {
            option: "singleplayer".into(),
            seed: None,
        },
        Action::CrystalSphereClickCell { x: 4, y: 7 },
    ];
    for a in cases {
        let s = render_json(&a.request_body());
        let back = Action::from_request_body(&parse_json(&s).unwrap()).unwrap();
        assert_eq!(a, back, "roundtrip for {s}");
    }
}

#[test]
fn request_body_field_order_and_names() {
    let a = Action::MenuSelect {
        option: "singleplayer".into(),
        seed: Some("ABC".into()),
    };
    assert_eq!(
        render_json(&a.request_body()),
        r#"{"action":"menu_select","option":"singleplayer","seed":"ABC"}"#
    );
    let t = Action::CrystalSphereSetTool { tool: "big".into() };
    assert_eq!(
        render_json(&t.request_body()),
        r#"{"action":"crystal_sphere_set_tool","tool":"big"}"#
    );
    let c = Action::ClaimTreasureRelic { index: 3 };
    assert_eq!(
        render_json(&c.request_body()),
        r#"{"action":"claim_treasure_relic","index":3}"#
    );
}

#[test]
fn reading_a_body_accepts_null_and_extra_members() {
    let v = parse_json(r#"{"action":"play_card","card_index":1,"target":null,"note":"x"}"#).unwrap();
    assert_eq!(
        Action::from_request_body(&v),
        Some(Action::PlayCard {
            card_index: 1,
            target: None
        })
    );
}

#[test]
fn reading_a_body_rejects_bad_members() {
    let cases = [
        r#"{"card_index":1}"#,
        r#"{"action":"fly"}"#,
        r#"{"action":7}"#,
        r#"{"action":"play_card"}"#,
        r#"{"action":"play_card","card_index":-1}"#,
        r#"{"action":"play_card","card_index":4294967296}"#,
        r#"{"action":"play_card","card_index":1,"target":5}"#,
        r#"{"action":"crystal_sphere_click_cell","x":1}"#,
        r#"{"action":"menu_select","seed":"a"}"#,
        r#"[1,2]"#,
    ];
    for c in cases {
        let v = parse_json(c).unwrap();
        assert_eq!(Action::from_request_body(&v), None, "{c}");
    }
}

/// A `serde_json::Value` in the library's JSON model.
fn model_of(v: &serde_json::Value) -> JsonValue {
    match v {
        serde_json::Value::Null => JsonValue::Null,
        serde_json::Value::Bool(b) => JsonValue::Bool(*b),
        serde_json::Value::Number(n) => match (n.as_u64(), n.as_i64()) {
            (Some(u), _) => JsonValue::Int(u as i128),
            (None, Some(i)) => JsonValue::Int(i as i128),
            (None, None) => JsonValue::Float(n.to_string()),
        },
        serde_json::Value::String(s) => JsonValue::Str(s.clone()),
        serde_json::Value::Array(a) => JsonValue::Array(a.iter().map(model_of).collect()),
        serde_json::Value::Object(m) => {
            JsonValue::Object(m.iter().map(|(k, x)| (k.clone(), model_of(x))).collect())
        }
    }
}

fn parse_json(text: &str) -> Option<JsonValue> {
    serde_json::from_str::<serde_json::Value>(text).ok().map(|v| model_of(&v))
}

/// A value of the library's JSON model as a `serde_json::Value`.
fn value_of(v: &JsonValue) -> serde_json::Value {
    match v {
        JsonValue::Null => serde_json::Value::Null,
        JsonValue::Bool(b) => serde_json::Value::Bool(*b),
        JsonValue::Int(n) => match (u64::try_from(*n), i64::try_from(*n)) {
            (Ok(u), _) => serde_json::Value::from(u),
            (Err(_), Ok(i)) => serde_json::Value::from(i),
            _ => serde_json::Value::Null,
        },
        JsonValue::Float(s) => s
            .parse::<serde_json::Number>()
            .map(serde_json::Value::Number)
            .unwrap_or(serde_json::Value::Null),
        JsonValue::Str(s) => serde_json::Value::String(s.clone()),
        JsonValue::Array(a) => serde_json::Value::Array(a.iter().map(value_of).collect()),
        JsonValue::Object(m) => {
            serde_json::Value::Object(m.iter().map(|(k, x)| (k.clone(), value_of(x))).collect())
        }
    }
}

fn render_json(v: &JsonValue) -> String {
    value_of(v).to_string()
}
