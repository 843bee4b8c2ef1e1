use sts2agent::json::JsonValue;
use sts2agent::mcp::{
    classify_response, frame_message, initialize_params, list_tools_of, notification_message, request_message,
    tool_call_params, tool_call_text, RequestIds, ResponseLine,
};
use sts2agent::mock::{tool_list, MockGame, Phase};

fn args(pairs: &[(&str, JsonValue)]) -> JsonValue {
    JsonValue::Object(pairs.iter().map(|(k, v)| (k.to_string(), copy(v))).collect())
}

fn copy(v: &JsonValue) -> JsonValue {
    v.copy()
}

fn num(n: i128) -> JsonValue {
    JsonValue::Int(n)
}

fn text(s: &str) -> JsonValue {
    JsonValue::Str(s.to_string())
}

#[test]
fn full_combat_scenario() {
    let mut g = MockGame::new();
    assert_eq!(g.phase(), Phase::MapScreen);

    let (_, err) = g.call_tool("map_choose_node", &args(&[("node_index", num(0))]));
    assert!(!err);
    assert_eq!(g.phase(), Phase::Combat);
    assert_eq!(g.enemy_hp(), 12);
    assert_eq!(g.hand_len(), 3);

    let (_, err) = g.combat_play_card(&args(&[("card_index", num(2)), ("target", text("JAW_WORM_0"))]));
    assert!(!err);
    assert_eq!(g.enemy_hp(), 6);
    assert_eq!(g.hand_len(), 2);

    let (_, err) = g.combat_play_card(&args(&[("card_index", num(0)), ("target", text("JAW_WORM_0"))]));
    assert!(!err);
    assert_eq!(g.phase(), Phase::Rewards);

    let (_, err) = g.rewards_claim(&args(&[("reward_index", num(0))]));
    assert!(!err);
    assert_eq!(g.player_gold(), 124);

    let (_, err) = g.proceed_to_map();
    assert!(!err);
    assert_eq!(g.phase(), Phase::MapScreen);
}

#[test]
fn errors_leave_the_game_unchanged() {
    let mut g = MockGame::new();
    let before = g.state_markdown();
    let (msg, err) = g.combat_end_turn();
    assert!(err);
    assert_eq!(msg, r#"{"status":"error","error":"Not in combat."}"#);
    let (msg, err) = g.call_tool("map_choose_node", &args(&[("node_index", num(1))]));
    assert!(err);
    assert_eq!(msg, r#"{"status":"error","error":"Mock only supports node 0 (Monster)."}"#);
    let (msg, err) = g.call_tool("map_choose_node", &args(&[]));
    assert!(err);
    assert_eq!(msg, r#"{"status":"error","error":"Missing node_index."}"#);
    assert_eq!(g.state_markdown(), before);
}

#[test]
fn card_errors() {
    let mut g = MockGame::new();
    g.map_choose_node(&args(&[("node_index", num(0))]));
    let (m, e) = g.combat_play_card(&args(&[]));
    assert!(e);
    assert_eq!(m, r#"{"status":"error","error":"Missing card_index."}"#);
    let (m, e) = g.combat_play_card(&args(&[("card_index", num(3))]));
    assert!(e);
    assert_eq!(m, r#"{"status":"error","error":"Invalid card_index."}"#);
    let (m, e) = g.combat_play_card(&args(&[("card_index", num(0))]));
    assert!(e);
    assert_eq!(m, r#"{"status":"error","error":"Card requires a target."}"#);
    let (m, e) = g.combat_play_card(&args(&[("card_index", num(1))]));
    assert!(!e);
    assert_eq!(m, r#"{"status":"ok","message":"Playing 'Defend' (gain 5 Block)"}"#);
    assert_eq!(g.player_block(), 5);
    let (m, e) = g.combat_play_card(&args(&[("card_index", num(0)), ("target", text("JAW_WORM_0"))]));
    assert!(!e);
    assert_eq!(m, r#"{"status":"ok","message":"Playing 'Strike' targeting JAW_WORM_0"}"#);
    let (m, e) = g.combat_play_card(&args(&[("card_index", num(0)), ("target", text("JAW_WORM_0"))]));
    assert!(!e);
    assert_eq!(g.player_energy(), 0);
    assert_eq!(g.phase(), Phase::Rewards);
    assert!(m.contains("Strike"));
}

#[test]
fn energy_runs_out() {
    let mut g = MockGame::new();
    g.map_choose_node(&args(&[("node_index", num(0))]));
    g.combat_play_card(&args(&[("card_index", num(1))]));
    g.combat_end_turn();
    assert_eq!(g.round(), 2);
    assert_eq!(g.player_hp(), 72);
    assert_eq!(g.player_block(), 0);
    g.combat_play_card(&args(&[("card_index", num(1))]));
    g.combat_play_card(&args(&[("card_index", num(0)), ("target", text("X"))]));
    assert_eq!(g.enemy_hp(), 6);
    g.combat_play_card(&args(&[("card_index", num(0)), ("target", text("X"))]));
    assert_eq!(g.enemy_hp(), 0);
    assert_eq!(g.player_energy(), 0);
    assert_eq!(g.phase(), Phase::Rewards);
}

#[test]
fn enemy_hits_through_missing_block() {
    let mut g = MockGame::new();
    g.map_choose_node(&args(&[("node_index", num(0))]));
    let (m, e) = g.combat_end_turn();
    assert!(!e);
    assert_eq!(m, r#"{"status":"ok","message":"Turn ended."}"#);
    assert_eq!(g.player_hp(), 67);
    assert_eq!(g.hand_len(), 3);
    assert_eq!(g.player_energy(), 3);
    for _ in 0..3 {
        g.combat_play_card(&args(&[("card_index", num(1))]));
    }
    assert_eq!(g.player_energy(), 2);
}

#[test]
fn rewards_and_proceed() {
    let mut g = MockGame::new();
    let (m, e) = g.rewards_claim(&args(&[("reward_index", num(0))]));
    assert!(e);
    assert_eq!(m, r#"{"status":"error","error":"Not on rewards screen."}"#);
    let (m, e) = g.proceed_to_map();
    assert!(e);
    assert_eq!(m, r#"{"status":"error","error":"Cannot proceed from current screen."}"#);
    g.map_choose_node(&args(&[("node_index", num(0))]));
    g.combat_end_turn();
    g.combat_play_card(&args(&[("card_index", num(0)), ("target", text("J"))]));
    g.combat_play_card(&args(&[("card_index", num(1)), ("target", text("J"))]));
    assert_eq!(g.phase(), Phase::Rewards);
    let (m, e) = g.rewards_claim(&args(&[("reward_index", num(1))]));
    assert!(!e);
    assert_eq!(m, r#"{"status":"ok","message":"Claimed Fire Potion."}"#);
    let (m, e) = g.rewards_claim(&args(&[("reward_index", num(7))]));
    assert!(e);
    assert_eq!(m, r#"{"status":"error","error":"Invalid reward_index."}"#);
    let (m, e) = g.rewards_claim(&args(&[]));
    assert!(e);
    assert_eq!(m, r#"{"status":"error","error":"Missing reward_index."}"#);
    let (_, e) = g.proceed_to_map();
    assert!(!e);
    assert_eq!(g.player_hp(), 73);
}

#[test]
fn markdown_of_each_screen() {
    let mut g = MockGame::new();
    assert_eq!(
        g.state_markdown(),
        "## Map (Act 1, Floor 3)\nPlayer: The Ironclad, 72/80 HP, 99 gold\n\nNext options:\n[0] Monster\n[1] RestSite\n[2] Shop"
    );
    g.map_choose_node(&args(&[("node_index", num(0))]));
    assert_eq!(
        g.state_markdown(),
        "## Combat (Round 1)\nPlayer: 72/80 HP, 0 block, 3/3 energy\nEnemy: Jaw Worm (12/12 HP)\nIntent: Attack 5"
    );
}

#[test]
fn state_json_of_combat() {
    let mut g = MockGame::new();
    g.map_choose_node(&args(&[("node_index", num(0))]));
    let (t, e) = g.call_tool("get_game_state", &args(&[("format", text("json"))]));
    assert!(!e);
    assert!(t.starts_with("{\n  \""));
    let v: serde_json::Value = serde_json::from_str(&t).unwrap();
    assert_eq!(v["state_type"], "monster");
    assert_eq!(v["battle"]["enemies"][0]["entity_id"], "JAW_WORM_0");
    assert_eq!(v["battle"]["enemies"][0]["intents"][0]["description"], "Deals 5 damage.");
    assert_eq!(v["player"]["hand"][2]["index"], 2);
    assert_eq!(v["player"]["hand"][1]["id"], "DEFEND_R");
    assert_eq!(v["player"]["hand"][0]["can_play"], true);
    assert_eq!(v["player"]["hand"][0]["cost"], "1");
    let (md, _) = g.call_tool("get_game_state", &args(&[]));
    assert_eq!(md, g.state_markdown());
}

#[test]
fn fixed_replies_and_unknown_tools() {
    let mut g = MockGame::new();
    assert_eq!(g.call_tool("rewards_pick_card", &args(&[])), (r#"{"status":"ok","message":"Card added to deck."}"#.to_string(), false));
    assert_eq!(g.call_tool("rewards_skip_card", &args(&[])), (r#"{"status":"ok","message":"Card reward skipped."}"#.to_string(), false));
    assert_eq!(g.call_tool("use_potion", &args(&[])).1, true);
    assert_eq!(g.call_tool("discard_potion", &args(&[])).0, r#"{"status":"error","error":"No potions available in mock."}"#);
    assert_eq!(g.call_tool("menu_select", &args(&[])).0, r#"{"status":"error","error":"Not in menu state."}"#);
    assert_eq!(
        g.call_tool("fly", &args(&[])),
        (r#"{"status":"error","error":"tool 'fly' not implemented in mock"}"#.to_string(), true)
    );
}

#[test]
fn tools_listed() {
    let t = tool_list();
    assert_eq!(t.len(), 11);
    assert_eq!(t[0].get("name").and_then(|n| n.as_str()), Some("get_game_state"));
    assert_eq!(t[10].get("name").and_then(|n| n.as_str()), Some("menu_select"));
}

#[test]
fn mock_message_flow() {
    let mut g = MockGame::new();
    let init = parse_json(r#"{"jsonrpc":"2.0","id":1,"method":"initialize","params":{}}"#).unwrap();
    let r = g.handle_message(&init).unwrap();
    let v: serde_json::Value = value_of(&r);
    assert_eq!(v["result"]["serverInfo"]["name"], "sts2-mock");
    assert_eq!(v["id"], 1);

    let note = parse_json(r#"{"jsonrpc":"2.0","method":"notifications/initialized"}"#).unwrap();
    assert!(g.handle_message(&note).is_none());

    let list = parse_json(r#"{"jsonrpc":"2.0","id":2,"method":"tools/list"}"#).unwrap();
    let r = g.handle_message(&list).unwrap();
    let v: serde_json::Value = value_of(&r);
    assert!(v["result"]["tools"].as_array().unwrap().len() >= 6);

    let call = parse_json(r#"{"jsonrpc":"2.0","id":3,"method":"tools/call","params":{"name":"map_choose_node","arguments":{"node_index":0}}}"#).unwrap();
    let r = g.handle_message(&call).unwrap();
    let v: serde_json::Value = value_of(&r);
    assert_eq!(v["result"]["isError"], false);
    assert!(v["result"]["content"][0]["text"].as_str().unwrap().contains("\"ok\""));
    assert_eq!(g.phase(), Phase::Combat);

    let bad = parse_json(r#"{"jsonrpc":"2.0","id":4,"method":"ping"}"#).unwrap();
    let r = g.handle_message(&bad).unwrap();
    let v: serde_json::Value = value_of(&r);
    assert_eq!(v["error"]["code"], -32601);
    assert_eq!(v["error"]["message"], "method not found: ping");
}

#[test]
fn default_is_new() {
    let g = MockGame::default();
    assert_eq!(g.player_gold(), 99);
    assert!(g.within_limits());
}

/// A `serde_json::Value` in the library's JSON model.
fn model_of(v: &serde_json::Value) -> JsonValue {
    match v {
        serde_json::Value::Null => JsonValue::Null,
        serde_json::Value::Bool(b) => JsonValue::Bool(*b),
        serde_json::Value::Number(n) => match (n.as_u64(), n.as_i64()) {
            (Some(u), _) => JsonValue::Int(u as i128),
            (None, Some(i)) => JsonValue::Int(i as i128),
            (None, None) => JsonValue::Float(n.to_string()),
        },
        serde_json::Value::String(s) => JsonValue::Str(s.clone()),
        serde_json::Value::Array(a) => JsonValue::Array(a.iter().map(model_of).collect()),
        serde_json::Value::Object(m) => {
            JsonValue::Object(m.iter().map(|(k, x)| (k.clone(), model_of(x))).collect())
        }
    }
}

fn parse_json(text: &str) -> Option<JsonValue> {
    serde_json::from_str::<serde_json::Value>(text).ok().map(|v| model_of(&v))
}

/// A value of the library's JSON model as a `serde_json::Value`.
fn value_of(v: &JsonValue) -> serde_json::Value {
    match v {
        JsonValue::Null => serde_json::Value::Null,
        JsonValue::Bool(b) => serde_json::Value::Bool(*b),
        JsonValue::Int(n) => match (u64::try_from(*n), i64::try_from(*n)) {
            (Ok(u), _) => serde_json::Value::from(u),
            (Err(_), Ok(i)) => serde_json::Value::from(i),
            _ => serde_json::Value::Null,
        },
        JsonValue::Float(s) => s
            .parse::<serde_json::Number>()
            .map(serde_json::Value::Number)
            .unwrap_or(serde_json::Value::Null),
        JsonValue::Str(s) => serde_json::Value::String(s.clone()),
        JsonValue::Array(a) => serde_json::Value::Array(a.iter().map(value_of).collect()),
        JsonValue::Object(m) => {
            serde_json::Value::Object(m.iter().map(|(k, x)| (k.clone(), value_of(x))).collect())
        }
    }
}

#[test]
fn mock_answers_lines_of_the_transport() {
    let mut g = MockGame::new();
    assert!(g.handle_line("not json").is_none());
    assert!(g.handle_line(r#"{"jsonrpc":"2.0","method":"notifications/initialized"}"#).is_none());
    let out = g
        .handle_line(r#"{"jsonrpc":"2.0","id":7,"method":"tools/call","params":{"name":"map_choose_node","arguments":{"node_index":0}}}"#)
        .unwrap();
    assert!(out.ends_with('\n'));
    assert_eq!(out.matches('\n').count(), 1);
    let v: serde_json::Value = serde_json::from_str(out.trim_end()).unwrap();
    assert_eq!(v["id"], 7);
    assert_eq!(v["result"]["isError"], false);
    assert_eq!(g.phase(), sts2agent::mock::Phase::Combat);
}

/// One request from the client side, answered by the mock through the stdio framing.
fn call(g: &mut MockGame, ids: &mut RequestIds, method: &str, params: JsonValue) -> JsonValue {
    let id = ids.next_id();
    let line = frame_message(&request_message(id, method, params));
    let answer = g.handle_line(line.trim_end()).expect("an answer");
    match classify_response(&answer, id) {
        ResponseLine::Result(v) => v,
        _ => panic!("expected a result"),
    }
}

fn tool(g: &mut MockGame, ids: &mut RequestIds, name: &str, arguments: &str) -> String {
    let result = call(g, ids, "tools/call", tool_call_params(name, parse_json(arguments).unwrap()));
    tool_call_text(name, &result).expect("tool text")
}

fn state(g: &mut MockGame, ids: &mut RequestIds) -> serde_json::Value {
    let raw = tool(g, ids, "get_game_state", r#"{"format":"json"}"#);
    serde_json::from_str(&raw).unwrap()
}

#[test]
fn mock_full_flow() {
    let mut g = MockGame::new();
    let mut ids = RequestIds::new();

    let info = call(&mut g, &mut ids, "initialize", initialize_params());
    assert_eq!(value_of(&info)["serverInfo"]["name"], "sts2-mock");
    assert!(g.handle_line(frame_message(&notification_message("notifications/initialized")).trim_end()).is_none());

    let tools = list_tools_of(&call(&mut g, &mut ids, "tools/list", parse_json("{}").unwrap()));
    assert!(tools.len() >= 6, "should have at least 6 tools");

    assert_eq!(state(&mut g, &mut ids)["state_type"], "map");

    assert!(tool(&mut g, &mut ids, "map_choose_node", r#"{"node_index":0}"#).contains("\"ok\""));
    let s = state(&mut g, &mut ids);
    assert_eq!(s["state_type"], "monster");
    assert_eq!(s["battle"]["enemies"][0]["entity_id"], "JAW_WORM_0");
    assert_eq!(s["battle"]["enemies"][0]["hp"], 12);

    assert!(tool(&mut g, &mut ids, "combat_play_card", r#"{"card_index":2,"target":"JAW_WORM_0"}"#).contains("\"ok\""));
    assert_eq!(state(&mut g, &mut ids)["battle"]["enemies"][0]["hp"], 6);

    assert!(tool(&mut g, &mut ids, "combat_play_card", r#"{"card_index":0,"target":"JAW_WORM_0"}"#).contains("\"ok\""));
    assert_eq!(state(&mut g, &mut ids)["state_type"], "rewards");

    assert!(tool(&mut g, &mut ids, "rewards_claim", r#"{"reward_index":0}"#).contains("25 gold"));

    assert!(tool(&mut g, &mut ids, "proceed_to_map", "{}").contains("\"ok\""));
    assert_eq!(state(&mut g, &mut ids)["state_type"], "map");
}
