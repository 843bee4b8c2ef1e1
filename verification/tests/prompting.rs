use sts2agent::decide::{build_messages, tool_definitions, ChatTurn};
use sts2agent::decision::{DecisionEngine, RuleBasedEngine};
use sts2agent::json::JsonValue;
use sts2agent::model::GameState;

#[test]
fn advice_prompt_without_player_message() {
    let history = vec![ChatTurn::User("hi".to_string()), ChatTurn::Assistant("yo".to_string())];
    let msgs = build_messages("{}", "m1", &history, "", None, false, None, Some("K"), None, None, &Vec::new(), false);
    assert_eq!(msgs.len(), 4);
    assert_eq!(msgs[0].role, "system");
    assert!(msgs[0].content.starts_with("你是《杀戮尖塔2》的牌手顾问（模型: m1）"));
    assert_eq!((msgs[1].role.as_str(), msgs[1].content.as_str()), ("user", "hi"));
    assert_eq!((msgs[2].role.as_str(), msgs[2].content.as_str()), ("assistant", "yo"));
    assert!(msgs[3].content.starts_with("当前游戏状态:\n```json\n{}\n```"));
    assert!(msgs[3].content.ends_with("请分析当前局面，给出行动建议。注意：不要输出 ACTION 行，只给文字建议。"));
}

#[test]
fn player_message_prompt() {
    let recent = vec!["a".to_string(), "b".to_string()];
    let msgs = build_messages("{}", "m", &Vec::new(), "地图", Some("走哪"), false, None, None, Some("N"), Some("P"), &recent, false);
    let last = &msgs[msgs.len() - 1].content;
    assert!(last.starts_with("当前状态: 地图\n\n完整状态 JSON:\n```json\n{}\n```\n\n往期经验:\nN"));
    assert!(last.contains("\n\n最近已执行的操作（不要重复执行）: a → b"));
    assert!(last.contains("\n\n玩家说: 走哪\n\n请回应玩家的问题或指令。"));
}

#[test]
fn tools_offered_to_the_model() {
    let v: serde_json::Value = serde_json::from_str(&render_json(&tool_definitions())).unwrap();
    let names: Vec<&str> = v.as_array().unwrap().iter().map(|t| t["function"]["name"].as_str().unwrap()).collect();
    assert_eq!(names.len(), 23);
    assert_eq!(names[0], "lookup");
    assert_eq!(names[22], "menu_select");
    assert_eq!(v[3]["function"]["parameters"]["required"][0], "card_index");
    assert_eq!(v[3]["function"]["parameters"]["properties"]["card_index"]["type"], "integer");
    assert!(v[2]["function"]["parameters"].get("required").is_none());
}

#[test]
fn tool_names_are_distinct_functions_that_normalize_to_themselves() {
    let v: serde_json::Value = serde_json::from_str(&render_json(&tool_definitions())).unwrap();
    let defs = v.as_array().unwrap();
    let mut seen: Vec<String> = Vec::new();
    for d in defs {
        assert_eq!(d["type"], "function");
        let n = d["function"]["name"].as_str().unwrap();
        assert_eq!(sts2agent::parse::normalize_tool(n), n);
        assert!(!seen.iter().any(|m| m == n));
        seen.push(n.to_string());
    }
    assert_eq!(seen.len(), 23);
    assert_eq!(sts2agent::parse::normalize_tool("PLAY_CARD"), "combat_play_card");
    assert_eq!(sts2agent::parse::normalize_tool("combat_play_card"), "combat_play_card");
}

#[test]
fn rule_engine_proposes_nothing_yet() {
    assert!(RuleBasedEngine.decide(&GameState::empty()).is_empty());
}

/// A value of the library's JSON model as a `serde_json::Value`.
fn value_of(v: &JsonValue) -> serde_json::Value {
    match v {
        JsonValue::Null => serde_json::Value::Null,
        JsonValue::Bool(b) => serde_json::Value::Bool(*b),
        JsonValue::Int(n) => match (u64::try_from(*n), i64::try_from(*n)) {
            (Ok(u), _) => serde_json::Value::from(u),
            (Err(_), Ok(i)) => serde_json::Value::from(i),
            _ => serde_json::Value::Null,
        },
        JsonValue::Float(s) => s
            .parse::<serde_json::Number>()
            .map(serde_json::Value::Number)
            .unwrap_or(serde_json::Value::Null),
        JsonValue::Str(s) => serde_json::Value::String(s.clone()),
        JsonValue::Array(a) => serde_json::Value::Array(a.iter().map(value_of).collect()),
        JsonValue::Object(m) => {
            serde_json::Value::Object(m.iter().map(|(k, x)| (k.clone(), value_of(x))).collect())
        }
    }
}

fn render_json(v: &JsonValue) -> String {
    value_of(v).to_string()
}
