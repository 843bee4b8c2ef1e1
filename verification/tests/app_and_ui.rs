use sts2agent::app::{display_width, state_lines, state_summary, AppState, MsgRole, StatusColor};
use sts2agent::model::{Battle, Card, Enemy, GameState, Intent, MapNextOption, MapState, Player, StateType};
use sts2agent::runner::{auto_reply, parse_intent, UserIntent};
use sts2agent::ui::{chat_panel, progress_label, wrap_line, ProgressLabel};

fn player() -> Player {
    Player {
        character: "The Ironclad".to_string(),
        hp: 70,
        max_hp: 80,
        block: 5,
        gold: 99,
        energy: Some(2),
        max_energy: None,
        hand: Some(vec![Card {
            index: Some(0),
            id: "STRIKE_R".to_string(),
            name: "Strike".to_string(),
            kind: "Attack".to_string(),
            cost: "1".to_string(),
            description: None,
            target_type: None,
            can_play: Some(false),
        }]),
        draw_pile: None,
        discard_pile: None,
        relics: Vec::new(),
        potions: Vec::new(),
        max_potion_slots: 3,
    }
}

fn fight() -> GameState {
    let mut gs = GameState::empty();
    gs.state_type = StateType::Monster;
    gs.player = Some(player());
    gs.battle = Some(Battle {
        round: Some(2),
        turn: None,
        is_play_phase: None,
        enemies: vec![Enemy {
            entity_id: "JAW_WORM_0".to_string(),
            combat_id: None,
            name: "Jaw Worm".to_string(),
            hp: 6,
            max_hp: 12,
            block: 0,
            intents: vec![Intent { kind: "Attack".to_string(), label: Some("5".to_string()), title: None, description: None }],
        }],
    });
    gs
}

#[test]
fn widths_count_cjk_twice() {
    assert_eq!(display_width("a中b"), 4);
    assert_eq!(display_width(""), 0);
    assert_eq!(display_width("abc"), 3);
    assert_eq!(display_width("中文"), 4);
    assert_eq!(display_width("é"), 1);
    assert_eq!(display_width("分析中…，"), 9);
}

#[test]
fn wrapping_by_columns() {
    assert_eq!(wrap_line("abcdef", 4), vec!["abcd", "ef"]);
    assert_eq!(wrap_line("中文字", 4), vec!["中文", "字"]);
    assert_eq!(wrap_line("", 3), vec![""]);
    assert_eq!(wrap_line("abc", 0), vec!["abc"]);
    assert_eq!(wrap_line("a中", 1), vec!["a", "中"]);
    let pieces = wrap_line("the quick brown fox", 5);
    assert_eq!(pieces.concat(), "the quick brown fox");
}

#[test]
fn input_editing() {
    let mut s = AppState::new(true);
    s.input_char('a');
    s.input_char('中');
    assert_eq!(s.input, "a中");
    assert_eq!(s.cursor, 4);
    s.backspace();
    assert_eq!(s.input, "a");
    assert_eq!(s.cursor, 1);
    assert_eq!(s.submit(), "a");
    assert_eq!(s.cursor, 0);
    assert_eq!(s.input, "");
    s.backspace();
    assert_eq!(s.input, "");
}

#[test]
fn status_colors() {
    let mut s = AppState::new(false);
    assert_eq!(s.status_color(), StatusColor::Cyan);
    s.progress = Some("x".to_string());
    assert_eq!(s.status_color(), StatusColor::Green);
    s.finished = true;
    assert_eq!(s.status_color(), StatusColor::Yellow);
    s.toggle_thinking();
    assert!(s.show_thinking);
}

#[test]
fn chat_scroll_resets() {
    let mut s = AppState::new(true);
    s.chat_scroll = 4;
    s.push_chat(MsgRole::System, "hi".to_string());
    assert_eq!(s.chat_scroll, 0);
    assert_eq!(s.chat.len(), 1);
}

#[test]
fn intents_by_keyword() {
    assert!(matches!(parse_intent("退出吧"), UserIntent::Quit));
    assert!(matches!(parse_intent("EXIT"), UserIntent::Quit));
    assert!(matches!(parse_intent(" 停 "), UserIntent::Interrupt));
    assert!(matches!(parse_intent("Stop"), UserIntent::Interrupt));
    assert!(matches!(parse_intent("换一个"), UserIntent::Reject));
    assert!(matches!(parse_intent("N"), UserIntent::Reject));
    match parse_intent("自己打") {
        UserIntent::Chat(t) => assert_eq!(t, "自己打"),
        _ => panic!("expected chat"),
    }
}

#[test]
fn auto_replies() {
    assert_eq!(auto_reply(" Yes "), Some(true));
    assert_eq!(auto_reply("好"), Some(true));
    assert_eq!(auto_reply("no"), Some(false));
    assert_eq!(auto_reply("maybe"), None);
}

#[test]
fn state_panel_lines() {
    assert_eq!(state_lines(&GameState::empty()), vec!["无角色信息".to_string()]);
    let lines = state_lines(&fight());
    assert_eq!(lines[0], "职业: The Ironclad");
    assert_eq!(lines[1], "HP: 70/80");
    assert_eq!(lines[2], "格挡: 5");
    assert_eq!(lines[3], "能量: 2/3");
    assert_eq!(lines[4], "金币: 99");
    assert!(lines.contains(&"  [0] Strike 1费 [不可出]".to_string()));
    assert!(lines.contains(&"  Jaw Worm 6/12 HP | Attack 5".to_string()));
}

#[test]
fn map_panel_lines() {
    let mut gs = GameState::empty();
    gs.player = Some(player());
    gs.map = Some(MapState {
        next_options: vec![MapNextOption { index: Some(1), col: None, row: None, kind: None }],
    });
    let lines = state_lines(&gs);
    assert!(lines.ends_with(&["".to_string(), "路径:".to_string(), "  [1] ?".to_string()]));
}

#[test]
fn summaries() {
    assert_eq!(state_summary(&fight()), "战斗 R2 | 70/80 HP 2 能量 | Jaw Worm");
    let mut gs = GameState::empty();
    gs.state_type = StateType::MapScreen;
    assert_eq!(state_summary(&gs), "地图");
    gs.state_type = StateType::Monster;
    assert_eq!(state_summary(&gs), "战斗");
    gs.state_type = StateType::GameOver;
    assert_eq!(state_summary(&gs), "GameOver");
    gs.state_type = StateType::FakeMerchant;
    assert_eq!(state_summary(&gs), "商店");
}

#[test]
fn chat_panel_wraps_and_scrolls() {
    let mut s = AppState::new(true);
    s.push_chat(MsgRole::User, "hello".to_string());
    let p = chat_panel(&s, 12, 10).unwrap();
    let texts: Vec<&str> = p.lines.iter().map(|l| l.text.as_str()).collect();
    assert_eq!(texts, vec!["[你]", "  hello", ""]);
    assert_eq!(p.scroll, 0);
    let tall = chat_panel(&s, 12, 3).unwrap();
    assert_eq!(tall.scroll, 2);
}

#[test]
fn progress_labels() {
    assert!(matches!(progress_label(false, &None), ProgressLabel::Ready));
    assert!(matches!(progress_label(true, &None), ProgressLabel::Responding));
    match progress_label(true, &Some("LLM 回复中…".to_string())) {
        ProgressLabel::Timed(t) => assert_eq!(t, "LLM 回复中…"),
        _ => panic!("expected timed"),
    }
    match progress_label(false, &Some("LLM 回复中…".to_string())) {
        ProgressLabel::Plain(t) => assert_eq!(t, "LLM 回复中…"),
        _ => panic!("expected plain"),
    }
    match progress_label(true, &Some("执行完毕".to_string())) {
        ProgressLabel::Plain(t) => assert_eq!(t, "执行完毕"),
        _ => panic!("expected plain"),
    }
}

#[test]
fn backspace_undoes_typing() {
    let mut s = AppState::new(true);
    for c in "ab中".chars() {
        s.input_char(c);
    }
    let (i0, c0) = (s.input.clone(), s.cursor);
    s.input_char('é');
    s.backspace();
    assert_eq!(s.input, i0);
    assert_eq!(s.cursor, c0);
    let mut e = AppState::new(true);
    e.backspace();
    assert_eq!(e.input, "");
    assert_eq!(e.cursor, 0);
}
