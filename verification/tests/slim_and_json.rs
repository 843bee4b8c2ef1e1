use sts2agent::json::JsonValue;
use sts2agent::slim::{slim_state_json, strip_keys, stripped_value};

#[test]
fn strips_keywords_and_nulls() {
    let json = r#"{"state_type":"monster","player":{"hp":72,"name":null,"hand":[{"id":"STRIKE_R","keywords":["Strike","攻击"]}],"relics":[{"counter":null}]}}"#;
    let slim = slim_state_json(json);
    assert!(!slim.contains("keywords"));
    assert!(!slim.contains("null"));
    assert!(slim.contains("STRIKE_R"));
    let v: serde_json::Value = serde_json::from_str(&slim).unwrap();
    assert_eq!(v["state_type"], "monster");
    assert_eq!(v["player"]["hp"], 72);
}

#[test]
fn invalid_json_passthrough() {
    assert_eq!(slim_state_json("not json"), "not json");
}

#[test]
fn slim_exact_text() {
    let json = r#"{"a":1,"keywords":[1],"b":null,"c":[{"keywords":2,"d":"x"}]}"#;
    assert_eq!(slim_state_json(json), r#"{"a":1,"c":[{"d":"x"}]}"#);
}

#[test]
fn slimming_twice_changes_nothing() {
    let json = r#"{"x":{"keywords":[],"y":null,"z":[null,{"keywords":1}]}}"#;
    let once = slim_state_json(json);
    assert_eq!(slim_state_json(&once), once);
    assert_eq!(once, r#"{"x":{"z":[null,{}]}}"#);
}

#[test]
fn strip_in_place_equals_stripped_copy() {
    let v = parse_json(r#"{"keywords":1,"k":[{"n":null,"m":true}]}"#).unwrap();
    let copy = stripped_value(&v);
    let mut w = v;
    strip_keys(&mut w);
    assert_eq!(render_json(&w), render_json(&copy));
    assert_eq!(render_json(&w), r#"{"k":[{"m":true}]}"#);
}

#[test]
fn slimming_rewrites_the_text_compactly() {
    assert_eq!(
        slim_state_json(r#" { "b" : [1, -2, "s", true, null, 2.5] } "#),
        r#"{"b":[1,-2,"s",true,null,2.5]}"#
    );
    assert_eq!(slim_state_json("{"), "{");
}

#[test]
fn lookups_in_values() {
    let v = parse_json(r#"{"a":{"b":7},"s":"t","u":18446744073709551615,"n":-1}"#).unwrap();
    assert_eq!(v.get("a").and_then(|a| a.get("b")).and_then(|b| b.as_u64()), Some(7));
    assert_eq!(v.get("s").and_then(|s| s.as_str()), Some("t"));
    assert_eq!(v.get("u").and_then(|u| u.as_u64()), Some(u64::MAX));
    assert_eq!(v.get("n").and_then(|n| n.as_u64()), None);
    assert!(v.get("missing").is_none());
    assert!(matches!(v.get("a"), Some(JsonValue::Object(_))));
}

/// A `serde_json::Value` in the library's JSON model.
fn model_of(v: &serde_json::Value) -> JsonValue {
    match v {
        serde_json::Value::Null => JsonValue::Null,
        serde_json::Value::Bool(b) => JsonValue::Bool(*b),
        serde_json::Value::Number(n) => match (n.as_u64(), n.as_i64()) {
            (Some(u), _) => JsonValue::Int(u as i128),
            (None, Some(i)) => JsonValue::Int(i as i128),
            (None, None) => JsonValue::Float(n.to_string()),
        },
        serde_json::Value::String(s) => JsonValue::Str(s.clone()),
        serde_json::Value::Array(a) => JsonValue::Array(a.iter().map(model_of).collect()),
        serde_json::Value::Object(m) => {
            JsonValue::Object(m.iter().map(|(k, x)| (k.clone(), model_of(x))).collect())
        }
    }
}

fn parse_json(text: &str) -> Option<JsonValue> {
    serde_json::from_str::<serde_json::Value>(text).ok().map(|v| model_of(&v))
}

/// A value of the library's JSON model as a `serde_json::Value`.
fn value_of(v: &JsonValue) -> serde_json::Value {
    match v {
        JsonValue::Null => serde_json::Value::Null,
        JsonValue::Bool(b) => serde_json::Value::Bool(*b),
        JsonValue::Int(n) => match (u64::try_from(*n), i64::try_from(*n)) {
            (Ok(u), _) => serde_json::Value::from(u),
            (Err(_), Ok(i)) => serde_json::Value::from(i),
            _ => serde_json::Value::Null,
        },
        JsonValue::Float(s) => s
            .parse::<serde_json::Number>()
            .map(serde_json::Value::Number)
            .unwrap_or(serde_json::Value::Null),
        JsonValue::Str(s) => serde_json::Value::String(s.clone()),
        JsonValue::Array(a) => serde_json::Value::Array(a.iter().map(value_of).collect()),
        JsonValue::Object(m) => {
            serde_json::Value::Object(m.iter().map(|(k, x)| (k.clone(), value_of(x))).collect())
        }
    }
}

fn render_json(v: &JsonValue) -> String {
    value_of(v).to_string()
}
