use sts2agent::json::JsonValue;
use sts2agent::parse::{
    extract_notes, is_action_line, is_note_line, normalize_tool, parse_action, parse_tool_call,
    ActionParseError, ParsedAction,
};

fn arg<'a>(a: &'a ParsedAction, key: &str) -> Option<&'a JsonValue> {
    a.args.get(key)
}

fn arg_u64(a: &ParsedAction, key: &str) -> Option<u64> {
    arg(a, key).and_then(|v| v.as_u64())
}

fn arg_str<'a>(a: &'a ParsedAction, key: &str) -> Option<&'a str> {
    arg(a, key).and_then(|v| v.as_str())
}

fn no_args(a: &ParsedAction) -> bool {
    match &a.args {
        JsonValue::Object(m) => m.is_empty(),
        _ => false,
    }
}

#[test]
fn parse_simple() {
    let text = "Some reasoning...\nACTION: combat_end_turn\nREASON: ...";
    let a = only_step(text);
    assert_eq!(a.tool, "combat_end_turn");
    assert!(no_args(&a));
}

#[test]
fn parse_with_int_param() {
    let text = "ACTION: map_choose_node | node_index=2\nREASON: ...";
    let a = only_step(text);
    assert_eq!(a.tool, "map_choose_node");
    assert_eq!(arg_u64(&a, "node_index"), Some(2));
}

#[test]
fn parse_with_string_param() {
    let text = "ACTION: combat_play_card | card_index=0 | target=JAW_WORM_0";
    let a = only_step(text);
    assert_eq!(a.tool, "combat_play_card");
    assert_eq!(arg_u64(&a, "card_index"), Some(0));
    assert_eq!(arg_str(&a, "target"), Some("JAW_WORM_0"));
}

#[test]
fn normalize_aliases() {
    assert_eq!(normalize_tool("end_turn"), "combat_end_turn");
    assert_eq!(normalize_tool("play_card"), "combat_play_card");
    assert_eq!(normalize_tool("proceed"), "proceed_to_map");
    assert_eq!(normalize_tool("buy"), "shop_purchase");
    assert_eq!(normalize_tool("choose_event_option"), "event_choose_option");
    assert_eq!(normalize_tool("advance_dialogue"), "event_advance_dialogue");
    assert_eq!(normalize_tool("choose_rest_option"), "rest_choose_option");
    assert_eq!(normalize_tool("select_relic"), "relic_select");
    assert_eq!(normalize_tool("skip_relic_selection"), "relic_skip");
    assert_eq!(normalize_tool("claim_treasure_relic"), "treasure_claim_relic");
    assert_eq!(normalize_tool("select_bundle"), "bundle_select");
    assert_eq!(normalize_tool("select_card_reward"), "rewards_pick_card");
    assert_eq!(normalize_tool("skip_card_reward"), "rewards_skip_card");
}

#[test]
fn param_index_normalization() {
    let a = only_step("ACTION: choose_event_option | index=0");
    assert_eq!(a.tool, "event_choose_option");
    assert_eq!(arg_u64(&a, "option_index"), Some(0));
    assert!(arg(&a, "index").is_none());

    let a = only_step("ACTION: map_choose_node | index=2");
    assert_eq!(arg_u64(&a, "node_index"), Some(2));

    let a = only_step("ACTION: rewards_claim | index=0");
    assert_eq!(arg_u64(&a, "reward_index"), Some(0));

    let a = only_step("ACTION: shop_purchase | index=5");
    assert_eq!(arg_u64(&a, "item_index"), Some(5));
}

#[test]
fn menu_select_option_coerced_to_string() {
    let a = only_step("ACTION: menu_select | option=0");
    assert_eq!(a.tool, "menu_select");
    assert_eq!(arg_str(&a, "option"), Some("0"));
    assert!(matches!(arg(&a, "option"), Some(JsonValue::Str(_))));

    let a = only_step("ACTION: menu_select | option=main_menu");
    assert_eq!(arg_str(&a, "option"), Some("main_menu"));

    let a = only_step("ACTION: crystal_sphere_set_tool | tool=big");
    assert_eq!(arg_str(&a, "tool"), Some("big"));
}

#[test]
fn case_insensitive_prefix() {
    let text = "action: combat_end_turn\nreason: done";
    let a = only_step(text);
    assert_eq!(a.tool, "combat_end_turn");
}

#[test]
fn extract_notes_basic() {
    let text = "分析中...\nNOTE: Jaw Worm 低血量会狂暴\nACTION: combat_end_turn\nNOTE: 这把缺防御牌";
    let notes = extract_notes(text);
    assert_eq!(notes.len(), 2);
    assert!(notes[0].contains("Jaw Worm"));
    assert!(notes[1].contains("缺防御牌"));
}

#[test]
fn extract_notes_empty() {
    let text = "只是分析，没有笔记";
    let notes = extract_notes(text);
    assert!(notes.is_empty());
}

#[test]
fn is_note_line_check() {
    assert!(is_note_line("NOTE: test"));
    assert!(is_note_line("  note: test"));
    assert!(!is_note_line("ACTION: test"));
    assert!(!is_note_line("这只是个注释"));
}

#[test]
fn parse_no_param_action() {
    let a = only_step("ACTION: proceed_to_map");
    assert_eq!(a.tool, "proceed_to_map");
    assert!(no_args(&a));

    let a = only_step("ACTION: combat_end_turn");
    assert_eq!(a.tool, "combat_end_turn");
}

#[test]
fn missing_action_errors() {
    assert!(parse_action("just reasoning, no action").is_err());
}

#[test]
fn missing_action_error_variant_and_message() {
    let e = parse_action("just reasoning, no action").unwrap_err();
    assert_eq!(e, ActionParseError::NoActionLine);
    assert_eq!(e.message(), "LLM 输出中未找到 ACTION: 行");
}

#[test]
fn action_line_without_tool_name_is_refused() {
    let e = parse_action("ACTION:   \nREASON: nothing").unwrap_err();
    assert_eq!(e, ActionParseError::MissingToolName);
    assert_eq!(e.message(), "ACTION 行缺少 tool name");
}

#[test]
fn tool_call_with_bad_arguments_is_refused() {
    let e = parse_tool_call("combat_play_card", "{not json").unwrap_err();
    assert_eq!(e, ActionParseError::InvalidToolArguments("{not json".to_string()));
    assert_eq!(e.message(), "invalid tool arguments JSON: {not json");
}

#[test]
fn tool_call_arguments_are_normalized() {
    let a = parse_tool_call("end_turn", "").unwrap();
    assert_eq!(a.tool, "combat_end_turn");
    assert!(no_args(&a));
    let a = parse_tool_call("choose_event_option", r#"{"index": 1}"#).unwrap();
    assert_eq!(a.tool, "event_choose_option");
    assert_eq!(arg_u64(&a, "option_index"), Some(1));
    assert!(arg(&a, "index").is_none());
}

#[test]
fn every_step_of_a_multi_step_answer() {
    let steps = parse_action("ACTION: end_turn\nACTION: proceed").unwrap();
    assert_eq!(steps.len(), 2);
    assert_eq!(steps[0].tool, "combat_end_turn");
    assert_eq!(steps[1].tool, "proceed_to_map");
}

#[test]
fn action_line_recognition() {
    assert!(is_action_line("ACTION: combat_end_turn"));
    assert!(is_action_line("  action: x"));
    assert!(!is_action_line("REASON: because"));
}

#[test]
fn unknown_tool_names_pass_through() {
    assert_eq!(normalize_tool("combat_end_turn"), "combat_end_turn");
    assert_eq!(normalize_tool("something_new"), "something_new");
}

#[test]
fn every_action_line_is_read_in_order() {
    let text = "ACTION: combat_play_card | card_index=0 | target=JAW_WORM_0\nthinking\nACTION: combat_end_turn";
    let steps = parse_action(text).unwrap();
    assert_eq!(steps.len(), 2);
    assert_eq!(steps[0].tool, "combat_play_card");
    assert_eq!(arg_str(&steps[0], "target"), Some("JAW_WORM_0"));
    assert_eq!(steps[1].tool, "combat_end_turn");
    let bad = parse_action("ACTION: combat_end_turn\nACTION: |").unwrap_err();
    assert!(matches!(bad, ActionParseError::MissingToolName));
}

/// The one step of an answer with a single action line.
fn only_step(text: &str) -> ParsedAction {
    let mut steps = parse_action(text).unwrap();
    assert_eq!(steps.len(), 1);
    steps.remove(0)
}

#[test]
fn normalizing_a_name_twice_or_in_capitals_changes_nothing() {
    for n in ["Foo_Bar", "END_TURN", "Claim", "map_choose_node", "Stop_Auto", "use_potion"] {
        let r = normalize_tool(n);
        assert_eq!(normalize_tool(&r), r);
        assert_eq!(r, r.to_lowercase());
        assert_eq!(normalize_tool(&n.to_ascii_uppercase()), r);
    }
    assert_eq!(normalize_tool("Foo_Bar"), "foo_bar");
    assert_eq!(normalize_tool("END_TURN"), "combat_end_turn");
    assert_eq!(normalize_tool("Stop_Auto"), "auto_stop");
}
