use sts2agent::app::{AppState, Mode};
use sts2agent::llm::{ChatMessage, ToolCall};
use sts2agent::model::{CardSelect, GameState, RewardItem, Rewards, StateType, Treasure, TreasureRelic};
use sts2agent::runner::{
    answer_text, collect_actions, settle_third_read, settle_two_reads, try_reflex_action, EnterStep, Settle,
};
use sts2agent::json::JsonValue;

fn reward(index: Option<u32>) -> RewardItem {
    RewardItem { index, kind: None, description: None, gold_amount: None }
}

#[test]
fn reflex_claims_rightmost_reward_then_proceeds() {
    let mut gs = GameState::empty();
    gs.state_type = StateType::Rewards;
    gs.rewards = Some(Rewards { items: vec![reward(Some(0)), reward(Some(2)), reward(None)], can_proceed: Some(true) });
    let (tool, args) = try_reflex_action(&gs).unwrap();
    assert_eq!(tool, "rewards_claim");
    assert_eq!(render_json(&args), r#"{"reward_index":2}"#);
    gs.rewards = Some(Rewards { items: Vec::new(), can_proceed: Some(true) });
    let (tool, args) = try_reflex_action(&gs).unwrap();
    assert_eq!(tool, "proceed_to_map");
    assert_eq!(render_json(&args), "{}");
    gs.rewards = Some(Rewards { items: Vec::new(), can_proceed: None });
    assert!(try_reflex_action(&gs).is_none());
}

#[test]
fn reflex_on_selection_and_treasure() {
    let mut gs = GameState::empty();
    gs.state_type = StateType::CardSelect;
    gs.card_select = Some(CardSelect {
        screen_type: None,
        prompt: None,
        cards: Vec::new(),
        preview_showing: None,
        can_confirm: Some(true),
        can_cancel: None,
        can_skip: None,
    });
    assert_eq!(try_reflex_action(&gs).unwrap().0, "deck_confirm_selection");
    let mut t = GameState::empty();
    t.state_type = StateType::Treasure;
    t.treasure = Some(Treasure {
        relics: vec![TreasureRelic { index: Some(0), id: None, name: None }],
        can_proceed: None,
        is_bidding_phase: Some(false),
    });
    let (tool, args) = try_reflex_action(&t).unwrap();
    assert_eq!(tool, "treasure_claim_relic");
    assert_eq!(render_json(&args), r#"{"relic_index":0}"#);
    assert!(try_reflex_action(&GameState::empty()).is_none());
}

#[test]
fn actions_from_tool_calls_first() {
    let calls = vec![
        ToolCall { id: "1".to_string(), name: "end_turn".to_string(), arguments: "{}".to_string() },
        ToolCall { id: "2".to_string(), name: "x".to_string(), arguments: "{bad".to_string() },
    ];
    let (actions, errors) = collect_actions(&calls, "ACTION: proceed");
    assert_eq!(actions.len(), 1);
    assert_eq!(actions[0].tool, "combat_end_turn");
    assert_eq!(errors, vec!["工具调用解析失败: invalid tool arguments JSON: {bad".to_string()]);
}

#[test]
fn actions_from_text_when_no_calls() {
    let (actions, errors) = collect_actions(&Vec::new(), "think\nACTION: end_turn\nACTION: proceed\nNOTE: n");
    assert!(errors.is_empty());
    let tools: Vec<&str> = actions.iter().map(|a| a.tool.as_str()).collect();
    assert_eq!(tools, vec!["combat_end_turn", "proceed_to_map"]);
}

#[test]
fn answer_without_action_and_note_lines() {
    assert_eq!(answer_text("  打这张\nACTION: end_turn\nNOTE: x\n理由 "), "打这张\n理由");
    assert_eq!(answer_text(""), "");
}

#[test]
fn long_autonomous_chain_is_trimmed() {
    let mut s = AppState::new(true);
    for i in 0..61 {
        if i == 21 {
            s.auto_messages.push(ChatMessage::tool("c", "orphan"));
        } else {
            s.auto_messages.push(ChatMessage::user("u"));
        }
    }
    s.trim_auto_chain();
    assert_eq!(s.auto_messages.len(), 39);
    assert_eq!(s.auto_messages[0].role, "user");
    let mut short = AppState::new(true);
    for _ in 0..60 {
        short.auto_messages.push(ChatMessage::user("u"));
    }
    short.trim_auto_chain();
    assert_eq!(short.auto_messages.len(), 60);
}

#[test]
fn entering_lines() {
    let mut s = AppState::new(true);
    assert!(matches!(s.on_enter(String::new()), EnterStep::Ignore));
    match s.on_enter("你好".to_string()) {
        EnterStep::Submit { cancel_stream, text, .. } => {
            assert!(!cancel_stream);
            assert_eq!(text, "你好");
        }
        _ => panic!("expected submit"),
    }
    assert_eq!(s.progress.as_deref(), Some("理解中…"));
    s.mode = Mode::Streaming;
    match s.on_enter("停".to_string()) {
        EnterStep::Submit { cancel_stream, .. } => assert!(cancel_stream),
        _ => panic!("expected submit"),
    }
    assert_eq!(s.mode, Mode::Idle);
}

#[test]
fn only_a_yes_starts_autonomous_mode() {
    let mut s = AppState::new(true);
    s.pending_auto_start = Some("自己打".to_string());
    assert!(matches!(s.on_enter("不".to_string()), EnterStep::Answered { .. }));
    assert!(!s.auto_mode);
    assert!(s.pending_auto_start.is_none());
    s.pending_auto_start = Some("自己打".to_string());
    assert!(matches!(s.on_enter("好".to_string()), EnterStep::Answered { .. }));
    assert!(s.auto_mode);
}

/// A value of the library's JSON model as a `serde_json::Value`.
fn value_of(v: &JsonValue) -> serde_json::Value {
    match v {
        JsonValue::Null => serde_json::Value::Null,
        JsonValue::Bool(b) => serde_json::Value::Bool(*b),
        JsonValue::Int(n) => match (u64::try_from(*n), i64::try_from(*n)) {
            (Ok(u), _) => serde_json::Value::from(u),
            (Err(_), Ok(i)) => serde_json::Value::from(i),
            _ => serde_json::Value::Null,
        },
        JsonValue::Float(s) => s
            .parse::<serde_json::Number>()
            .map(serde_json::Value::Number)
            .unwrap_or(serde_json::Value::Null),
        JsonValue::Str(s) => serde_json::Value::String(s.clone()),
        JsonValue::Array(a) => serde_json::Value::Array(a.iter().map(value_of).collect()),
        JsonValue::Object(m) => {
            serde_json::Value::Object(m.iter().map(|(k, x)| (k.clone(), value_of(x))).collect())
        }
    }
}

fn render_json(v: &JsonValue) -> String {
    value_of(v).to_string()
}

fn round(user: Option<&str>, agent: &str) -> sts2agent::storage::TurnRecord {
    sts2agent::storage::TurnRecord {
        turn: 1,
        state_summary: String::new(),
        state_json: String::new(),
        agent_text: agent.to_string(),
        action: None,
        result: None,
        success: false,
        user_input: user.map(|u| u.to_string()),
        input_tokens: 0,
        output_tokens: 0,
    }
}

#[test]
fn resuming_a_session_restores_history_panel_and_counters() {
    let mut s = AppState::new(true);
    let turns = vec![round(Some("分析一下"), "先打击"), round(None, ""), round(None, "结束回合")];
    s.resume(&turns, 1200, 340);
    assert_eq!(s.total_input, 1200);
    assert_eq!(s.total_output, 340);
    assert_eq!(s.current_turn, 3);
    let h: Vec<String> = s
        .history
        .iter()
        .map(|t| match t {
            sts2agent::decide::ChatTurn::User(x) => format!("U:{x}"),
            sts2agent::decide::ChatTurn::Assistant(x) => format!("A:{x}"),
        })
        .collect();
    assert_eq!(h, vec!["U:分析一下", "A:先打击", "A:结束回合"]);
    let c: Vec<(sts2agent::app::MsgRole, String)> = s.chat.iter().map(|m| (m.role, m.text.clone())).collect();
    assert_eq!(
        c,
        vec![
            (sts2agent::app::MsgRole::User, "分析一下".to_string()),
            (sts2agent::app::MsgRole::Agent, "先打击".to_string()),
            (sts2agent::app::MsgRole::Agent, "结束回合".to_string()),
        ]
    );
}

#[test]
fn scrolling_and_background_errors() {
    let mut s = AppState::new(true);
    s.scroll_up();
    s.scroll_up();
    assert_eq!(s.chat_scroll, 6);
    s.scroll_down();
    assert_eq!(s.chat_scroll, 3);
    s.scroll_down();
    s.scroll_down();
    assert_eq!(s.chat_scroll, 0);
    s.chat_scroll = 999;
    s.scroll_up();
    assert_eq!(s.chat_scroll, 1002);
    s.scroll_up();
    assert_eq!(s.chat_scroll, 1002);

    s.mode = Mode::Streaming;
    s.progress = Some("LLM 回复中…".to_string());
    s.on_error("取状态失败: x".to_string());
    assert_eq!(s.mode, Mode::Idle);
    assert!(s.progress.is_none());
    assert_eq!(s.chat_scroll, 0);
    assert_eq!(s.chat.last().unwrap().text, "取状态失败: x");
    assert_eq!(s.chat.last().unwrap().role, sts2agent::app::MsgRole::System);
}

#[test]
fn a_state_is_stable_after_two_equal_reads() {
    let ok = |s: &str| Ok::<String, String>(s.to_string());
    let err = |s: &str| Err::<String, String>(s.to_string());
    assert!(matches!(settle_two_reads(ok("a"), ok("a")), Settle::Ready(s) if s == "a"));
    assert!(matches!(settle_two_reads(ok("a"), ok("b")), Settle::ReadAgain));
    assert!(matches!(settle_two_reads(ok("a"), err("x")), Settle::Ready(s) if s == "a"));
    assert!(matches!(settle_two_reads(err("x"), ok("b")), Settle::Failed(m) if m == "取状态失败: x"));
    assert!(matches!(settle_third_read(ok("c")), Settle::Ready(s) if s == "c"));
    assert!(matches!(settle_third_read(err("y")), Settle::Failed(m) if m == "取状态失败: y"));
}

#[test]
fn interrupting_clears_the_stream_and_says_so() {
    let mut s = AppState::new(true);
    s.auto_mode = true;
    s.mode = Mode::Streaming;
    s.progress = Some("分析中…".to_string());
    s.on_delta("部分回答");
    let before = s.chat.len();
    let step = s.on_intent(&sts2agent::runner::UserIntent::Interrupt, "停");
    assert!(matches!(step, sts2agent::runner::IntentStep::Interrupted));
    assert!(!s.auto_mode);
    assert!(s.progress.is_none());
    assert_eq!(s.mode, Mode::Idle);
    assert!(s.streaming_text.is_empty() && s.full_text.is_empty());
    assert_eq!(s.chat.len(), before + 1);
    assert_eq!(s.chat.last().unwrap().text, "已打断，退出自主模式。");
}

fn answered(state: &mut AppState, text: &str) -> sts2agent::runner::StreamDone {
    state.decision_state_json = "{\"state_type\":\"monster\"}".to_string();
    state.on_delta(text);
    let kb = sts2agent::lookup::KnowledgeBase { dir_exists: true, files: Vec::new() };
    let gs = GameState::empty();
    state.on_stream_done(&Vec::new(), "{\"state_type\":\"monster\"}".to_string(), gs, &kb, 1)
}

#[test]
fn a_declared_plan_is_kept_for_later_rounds() {
    let mut s = AppState::new(true);
    let done = answered(&mut s, "先压血。\nPLAN: 旧计划\nplan:  先压血到16，下回合斩杀 \nNOTE: 注意狂暴");
    assert_eq!(s.plan.as_deref(), Some("先压血到16，下回合斩杀"));
    assert_eq!(done.notes, vec!["注意狂暴".to_string()]);
    let mut t = AppState::new(true);
    t.plan = Some("旧".to_string());
    answered(&mut t, "没有计划行");
    assert_eq!(t.plan.as_deref(), Some("旧"));
}

#[test]
fn a_lookup_is_recorded_for_the_next_decision() {
    let mut s = AppState::new(true);
    s.pending_user_input = Some("什么是痛击".to_string());
    let done = answered(&mut s, "查一下\nACTION: lookup | query=Bash");
    assert_eq!(s.lookup_rounds, 1);
    assert!(s.lookup_context.starts_with("[查询 Bash]"));
    assert!(s.history.len() == 1);
    let rec = done.record.unwrap();
    assert_eq!(rec.user_input.as_deref(), Some("什么是痛击"));
    assert!(rec.action.unwrap().starts_with("lookup "));
}

#[test]
fn a_chat_line_joins_the_history() {
    let mut s = AppState::new(true);
    s.on_intent(&sts2agent::runner::UserIntent::Chat("分析一下".to_string()), "分析一下");
    assert_eq!(s.history.len(), 1);
    assert!(matches!(&s.history[0], sts2agent::decide::ChatTurn::User(t) if t == "分析一下"));
    assert_eq!(s.pending_user_input.as_deref(), Some("分析一下"));
    s.on_intent(&sts2agent::runner::UserIntent::Reject, "不");
    assert_eq!(s.history.len(), 2);
    assert!(matches!(&s.history[1], sts2agent::decide::ChatTurn::User(t) if t == "不"));
}

#[test]
fn giving_up_and_stopping_end_autonomous_mode_idle() {
    let mut s = AppState::new(true);
    s.auto_mode = true;
    s.no_action_streak = 2;
    let done = answered(&mut s, "想不出该做什么");
    assert!(matches!(done.next, sts2agent::runner::Next::Idle));
    assert!(!s.auto_mode);
    assert!(s.task.is_none());
    assert_eq!(s.no_action_streak, 0);
    assert_eq!(s.mode, Mode::Idle);
    assert_eq!(s.chat.last().unwrap().text, sts2agent::runner::GIVE_UP_NOTICE);

    let mut t = AppState::new(true);
    t.auto_mode = true;
    let done = answered(&mut t, "任务完成\nACTION: auto_stop");
    assert!(matches!(done.next, sts2agent::runner::Next::Idle));
    assert!(!t.auto_mode);
    assert_eq!(t.mode, Mode::Idle);
    assert!(t.pending_actions.is_empty());
    assert!(t.auto_messages.is_empty());
    assert_eq!(t.chat.last().unwrap().text, sts2agent::runner::AUTO_STOP_NOTICE);

    let mut u = AppState::new(true);
    u.auto_mode = true;
    u.no_action_streak = 1;
    let done = answered(&mut u, "再想想");
    assert!(matches!(done.next, sts2agent::runner::Next::ContinueAuto));
    assert!(u.auto_mode);
    assert_eq!(u.no_action_streak, 2);
}
