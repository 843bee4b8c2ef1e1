use sts2agent::json::JsonValue;
use sts2agent::knowledge_server::{context_reply, handle_line, handle_message, server_tool_definitions, wiki_reply, ServerStep};
use sts2agent::lookup::KnowledgeBase;
use sts2agent::mcp::{
    classify_response, frame_message, initialize_params, list_tools_of, notification_message, request_message,
    state_args, tool_call_params, tool_call_text, wiki_args, RequestIds, ResponseLine,
};
use sts2agent::model::GameState;
use sts2agent::play::{next_step, play_step, preview, round_allowed, state_summary, PlayStep};
use sts2agent::storage::{join_path, newest_first, notes_appended, notes_path, SessionStore};
use sts2agent::model::StateType;

fn kb() -> KnowledgeBase {
    KnowledgeBase {
        dir_exists: true,
        files: vec![("cards.md".to_string(), "| Name |\n| --- |\n| Bash | 2 |\n".to_string())],
    }
}

#[test]
fn request_ids_count_up() {
    let mut ids = RequestIds::new();
    assert_eq!(ids.next_id(), 0);
    assert_eq!(ids.next_id(), 1);
    assert_eq!(ids.next, 2);
}

#[test]
fn requests_render() {
    let r = request_message(7, "tools/call", tool_call_params("get_game_state", state_args("json")));
    assert_eq!(
        render_json(&r),
        r#"{"id":7,"jsonrpc":"2.0","method":"tools/call","params":{"arguments":{"format":"json"},"name":"get_game_state"}}"#
    );
    assert_eq!(render_json(&notification_message("notifications/initialized")), r#"{"jsonrpc":"2.0","method":"notifications/initialized"}"#);
    let p = render_json(&initialize_params());
    assert!(p.contains(r#""clientInfo":{"name":"sts2-agent","version":"0.1.0"}"#));
    assert_eq!(render_json(&wiki_args("x")), r#"{"item_type":"all","limit":3,"query":"x"}"#);
}

#[test]
fn response_lines_classified() {
    assert!(matches!(classify_response(r#"{"jsonrpc":"2.0","method":"note"}"#, 1), ResponseLine::Skip));
    assert!(matches!(classify_response(r#"{"id":2,"result":{}}"#, 1), ResponseLine::Skip));
    match classify_response("garbage", 1) {
        ResponseLine::Failure(m) => assert_eq!(m, "invalid JSON-RPC line: garbage"),
        _ => panic!("expected failure"),
    }
    match classify_response(r#"{"id":"a"}"#, 1) {
        ResponseLine::Failure(m) => assert_eq!(m, "invalid id"),
        _ => panic!("expected failure"),
    }
    match classify_response(r#"{"id":1,"error":{"code":-1}}"#, 1) {
        ResponseLine::Failure(m) => assert_eq!(m, r#"MCP error: {"code":-1}"#),
        _ => panic!("expected failure"),
    }
    match classify_response(r#" {"id":1,"result":{"ok":true}} "#, 1) {
        ResponseLine::Result(v) => assert_eq!(render_json(&v), r#"{"ok":true}"#),
        _ => panic!("expected result"),
    }
    match classify_response(r#"{"id":1}"#, 1) {
        ResponseLine::Result(v) => assert!(matches!(v, JsonValue::Null)),
        _ => panic!("expected result"),
    }
}

#[test]
fn tool_results_read() {
    let ok = parse_json(r#"{"content":[{"type":"text","text":"hi"}]}"#).unwrap();
    assert_eq!(tool_call_text("t", &ok), Ok("hi".to_string()));
    let err = parse_json(r#"{"content":[{"type":"text","text":"bad"}],"isError":true}"#).unwrap();
    assert_eq!(tool_call_text("t", &err), Err("tool 't' error: bad".to_string()));
    let err2 = parse_json(r#"{"isError":true}"#).unwrap();
    assert_eq!(tool_call_text("t", &err2), Err("tool 't' error: unknown".to_string()));
    let odd = parse_json(r#"{"x":1}"#).unwrap();
    assert_eq!(tool_call_text("t", &odd), Err("unexpected tool call result format".to_string()));
    let list = parse_json(r#"{"tools":[{"name":"a"},{"name":"b"}]}"#).unwrap();
    assert_eq!(list_tools_of(&list).len(), 2);
    assert_eq!(list_tools_of(&odd).len(), 0);
}

#[test]
fn knowledge_server_answers() {
    let init = parse_json(r#"{"jsonrpc":"2.0","id":1,"method":"initialize"}"#).unwrap();
    match handle_message(&init, &kb(), false) {
        ServerStep::Reply(v) => {
            let s = render_json(&v);
            assert!(s.contains(r#""serverInfo":{"name":"sts2-knowledge","version":"0.1.0"}"#));
        }
        _ => panic!("expected reply"),
    }
    let note = parse_json(r#"{"jsonrpc":"2.0","method":"notifications/initialized"}"#).unwrap();
    assert!(matches!(handle_message(&note, &kb(), false), ServerStep::Ignore));
    let hit = parse_json(r#"{"id":2,"method":"tools/call","params":{"name":"lookup","arguments":{"query":"bash"}}}"#).unwrap();
    match handle_message(&hit, &kb(), false) {
        ServerStep::Reply(v) => {
            let j: serde_json::Value = serde_json::from_str(&render_json(&v)).unwrap();
            assert_eq!(j["result"]["content"][0]["text"], "[卡牌]\n| Bash | 2 |\n");
        }
        _ => panic!("expected reply"),
    }
    let miss = parse_json(r#"{"id":3,"method":"tools/call","params":{"name":"lookup","arguments":{"query":"zzz"}}}"#).unwrap();
    match handle_message(&miss, &kb(), false) {
        ServerStep::Reply(v) => {
            let j: serde_json::Value = serde_json::from_str(&render_json(&v)).unwrap();
            assert_eq!(j["result"]["content"][0]["text"], "未找到 zzz");
        }
        _ => panic!("expected reply"),
    }
    match handle_message(&miss, &kb(), true) {
        ServerStep::Wiki { query, used, .. } => {
            assert_eq!(query, "zzz");
            assert_eq!(used, "zzz");
        }
        _ => panic!("expected wiki"),
    }
    let ctx = parse_json(r#"{"id":4,"method":"tools/call","params":{"name":"context_for_state","arguments":{}}}"#).unwrap();
    match handle_message(&ctx, &kb(), false) {
        ServerStep::Context { state_json, .. } => assert_eq!(state_json, "{}"),
        _ => panic!("expected context"),
    }
    let other = parse_json(r#"{"id":5,"method":"tools/call","params":{"name":"nope"}}"#).unwrap();
    match handle_message(&other, &kb(), false) {
        ServerStep::Reply(v) => assert!(render_json(&v).contains("unknown tool: nope")),
        _ => panic!("expected reply"),
    }
}

#[test]
fn knowledge_server_follow_ups() {
    let id = JsonValue::Int(9);
    let r = wiki_reply(id.copy(), "q", "q2", "");
    assert!(render_json(&r).contains("未找到 q（本地与 Wiki 均无记录）"));
    let r = wiki_reply(id.copy(), "q", "q2", "text");
    assert!(render_json(&r).contains("[wiki q2]\\ntext"));
    let r = context_reply(id, &GameState::empty(), &kb());
    let j: serde_json::Value = serde_json::from_str(&render_json(&r)).unwrap();
    assert_eq!(j["result"]["content"][0]["text"], "");
    let defs = server_tool_definitions();
    let j: serde_json::Value = serde_json::from_str(&render_json(&defs)).unwrap();
    assert_eq!(j[0]["function"]["name"], "lookup");
    assert_eq!(j[1]["function"]["parameters"]["required"][0], "state_json");
}

#[test]
fn session_paths() {
    let s = SessionStore::from_dir("data/sessions");
    assert_eq!(s.session_path("abc"), "data/sessions/abc.json");
    assert_eq!(join_path("a/", "b"), "a/b");
    assert_eq!(join_path("", "b"), "b");
    assert_eq!(join_path("a", "/b"), "/b");
    assert_eq!(notes_path("d", "s1"), "d/s1_notes.md");
}

#[test]
fn notes_are_appended() {
    let notes = vec!["one".to_string(), "two".to_string()];
    assert_eq!(notes_appended("x", &notes), "x\n- one\n- two\n");
    assert_eq!(notes_appended("x\n", &notes), "x\n- one\n- two\n");
    assert_eq!(notes_appended("", &Vec::new()), "\n");
}

#[test]
fn autoplay_steps() {
    let mut gs = GameState::empty();
    gs.state_type = StateType::GameOver;
    assert_eq!(play_step(&gs, true), PlayStep::GameOver);
    gs.state_type = StateType::Unknown;
    assert_eq!(play_step(&gs, false), PlayStep::Unknown);
    gs.state_type = StateType::Shop;
    assert_eq!(play_step(&gs, true), PlayStep::OverBudget);
    assert_eq!(play_step(&gs, false), PlayStep::Decide);
    assert_eq!(state_summary(&gs), "商店");
    assert_eq!(preview("abcdef", 3), "abc");
    assert_eq!(preview("ab", 3), "ab");
}

/// A `serde_json::Value` in the library's JSON model.
fn model_of(v: &serde_json::Value) -> JsonValue {
    match v {
        serde_json::Value::Null => JsonValue::Null,
        serde_json::Value::Bool(b) => JsonValue::Bool(*b),
        serde_json::Value::Number(n) => match (n.as_u64(), n.as_i64()) {
            (Some(u), _) => JsonValue::Int(u as i128),
            (None, Some(i)) => JsonValue::Int(i as i128),
            (None, None) => JsonValue::Float(n.to_string()),
        },
        serde_json::Value::String(s) => JsonValue::Str(s.clone()),
        serde_json::Value::Array(a) => JsonValue::Array(a.iter().map(model_of).collect()),
        serde_json::Value::Object(m) => {
            JsonValue::Object(m.iter().map(|(k, x)| (k.clone(), model_of(x))).collect())
        }
    }
}

fn parse_json(text: &str) -> Option<JsonValue> {
    serde_json::from_str::<serde_json::Value>(text).ok().map(|v| model_of(&v))
}

/// A value of the library's JSON model as a `serde_json::Value`.
fn value_of(v: &JsonValue) -> serde_json::Value {
    match v {
        JsonValue::Null => serde_json::Value::Null,
        JsonValue::Bool(b) => serde_json::Value::Bool(*b),
        JsonValue::Int(n) => match (u64::try_from(*n), i64::try_from(*n)) {
            (Ok(u), _) => serde_json::Value::from(u),
            (Err(_), Ok(i)) => serde_json::Value::from(i),
            _ => serde_json::Value::Null,
        },
        JsonValue::Float(s) => s
            .parse::<serde_json::Number>()
            .map(serde_json::Value::Number)
            .unwrap_or(serde_json::Value::Null),
        JsonValue::Str(s) => serde_json::Value::String(s.clone()),
        JsonValue::Array(a) => serde_json::Value::Array(a.iter().map(value_of).collect()),
        JsonValue::Object(m) => {
            serde_json::Value::Object(m.iter().map(|(k, x)| (k.clone(), value_of(x))).collect())
        }
    }
}

fn render_json(v: &JsonValue) -> String {
    value_of(v).to_string()
}

#[test]
fn sessions_are_listed_newest_first_and_ties_keep_their_order() {
    assert_eq!(newest_first(&vec![5, 9, 5, 1, 9]), vec![1, 4, 0, 2, 3]);
    assert_eq!(newest_first(&vec![]), Vec::<usize>::new());
    assert_eq!(newest_first(&vec![3, 3, 3]), vec![0, 1, 2]);
    assert_eq!(newest_first(&vec![1, 2, 3]), vec![2, 1, 0]);
}

#[test]
fn knowledge_server_reads_lines() {
    assert!(matches!(handle_line("oops\n", &kb(), false), ServerStep::Ignore));
    match handle_line("  {\"jsonrpc\":\"2.0\",\"id\":9,\"method\":\"tools/list\"}\n", &kb(), false) {
        ServerStep::Reply(v) => {
            let line = frame_message(&v);
            assert!(line.ends_with('\n'));
            let j: serde_json::Value = serde_json::from_str(line.trim_end()).unwrap();
            assert_eq!(j["id"], 9);
            assert_eq!(j["result"]["tools"][0]["function"]["name"], "lookup");
        }
        _ => panic!("expected reply"),
    }
}

#[test]
fn messages_are_framed_as_one_line() {
    let line = frame_message(&notification_message("notifications/initialized"));
    assert_eq!(line, "{\"jsonrpc\":\"2.0\",\"method\":\"notifications/initialized\"}\n");
}

#[test]
fn autoplay_rounds_and_steps() {
    assert!(round_allowed(1, 6));
    assert!(round_allowed(6, 6));
    assert!(!round_allowed(7, 6));
    assert!(!round_allowed(0, 6));
    assert!(!round_allowed(1, 0));
    assert_eq!(next_step(0, true, 3), Some(1));
    assert_eq!(next_step(2, true, 3), None);
    assert_eq!(next_step(0, false, 3), None);
}
