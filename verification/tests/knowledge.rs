use sts2agent::context::{
    collect_card_ids, collect_enemy_ids, dedup_ids, find_unknown_hand_cards, lookup_playbook,
    search_game_knowledge, Budget,
};
use sts2agent::lookup::{
    first_column, format_wiki_answer, lookup_in_table, lookup_query, lookup_query_smart,
    normalize_id, perform_lookup, strip_card_suffix, KnowledgeBase,
};
use sts2agent::model::{Battle, Card, Enemy, GameState, Player, StateType};

const CARDS: &str = "# Cards\n\n| Name | Cost | Type |\n| --- | --- | --- |\n| StrikeIronclad | 1 | Attack |\n| Bash | 2 | Attack |\n| DefendIronclad | 1 | Skill |\n";
const MONSTERS: &str = "| Name | HP |\n| --- | --- |\n| JawWorm | 40-44 |\n| Cultist | 48-54 |\n";
const PLAYBOOK: &str = "# Core\nKeep hp high.\n\n## Combat\nBlock big hits.\n\n## Shop\nBuy removal.\n";

fn kb() -> KnowledgeBase {
    KnowledgeBase {
        dir_exists: true,
        files: vec![
            ("cards.md".to_string(), CARDS.to_string()),
            ("monsters.md".to_string(), MONSTERS.to_string()),
            ("playbook.md".to_string(), PLAYBOOK.to_string()),
        ],
    }
}

fn card(id: &str, name: &str) -> Card {
    Card {
        index: None,
        id: id.to_string(),
        name: name.to_string(),
        kind: String::new(),
        cost: String::new(),
        description: None,
        target_type: None,
        can_play: None,
    }
}

fn player_with_hand(character: &str, hand: Vec<Card>) -> Player {
    Player {
        character: character.to_string(),
        hp: 0,
        max_hp: 0,
        block: 0,
        gold: 0,
        energy: None,
        max_energy: None,
        hand: Some(hand),
        draw_pile: None,
        discard_pile: None,
        relics: Vec::new(),
        potions: Vec::new(),
        max_potion_slots: 0,
    }
}

fn enemy(entity_id: &str, name: &str) -> Enemy {
    Enemy {
        entity_id: entity_id.to_string(),
        combat_id: None,
        name: name.to_string(),
        hp: 0,
        max_hp: 0,
        block: 0,
        intents: Vec::new(),
    }
}

fn monster_state() -> GameState {
    let mut gs = GameState::empty();
    gs.state_type = StateType::Monster;
    gs
}

#[test]
fn normalize_id_strips_separators() {
    assert_eq!(normalize_id("JAW_WORM_0"), "jawworm0");
    assert_eq!(normalize_id("Jaw Worm"), "jawworm");
    assert_eq!(normalize_id("StrikeIronclad"), "strikeironclad");
}

#[test]
fn lookup_query_finds_card() {
    let result = lookup_query("StrikeIronclad", &kb());
    assert!(result.contains("[卡牌]"), "should hit cards.md: {result}");
    assert!(result.contains("StrikeIronclad"));
}

#[test]
fn lookup_query_finds_monster_case_insensitive() {
    let result = lookup_query("jaw worm", &kb());
    assert!(result.contains("[敌人]"), "should hit monsters.md: {result}");
}

#[test]
fn lookup_query_miss_returns_empty() {
    assert!(lookup_query("NoSuchThing12345", &kb()).is_empty());
    assert!(lookup_query("", &kb()).is_empty());
}

#[test]
fn lookup_smart_falls_back_to_display_name() {
    let mut gs = monster_state();
    gs.player = Some(player_with_hand("", vec![card("StrikeIronclad", "打击")]));
    let (used, r) = lookup_query_smart("StrikeIronclad", &gs, &kb());
    assert_eq!(used, "StrikeIronclad");
    assert!(!r.is_empty());
    let (used, r) = lookup_query_smart("打击", &gs, &kb());
    assert_eq!(used, "StrikeIronclad", "should fall back to internal id");
    assert!(r.contains("StrikeIronclad"));
}

#[test]
fn strip_card_suffix_matches_real_id_format() {
    assert_eq!(strip_card_suffix("STRIKE_R"), "STRIKE");
    let r = lookup_query("STRIKE_R", &kb());
    assert!(r.contains("[卡牌]"), "real-format id should hit cards.md: {r}");
}

#[test]
fn search_flags_unknown_hand_cards() {
    let mut gs = monster_state();
    gs.player = Some(player_with_hand("", vec![card("BASH", "Bash"), card("WEIRD_NEW_CARD_X", "怪牌")]));
    let result = search_game_knowledge(&gs, &kb());
    assert!(result.contains("知识库未收录"), "should flag unknown card");
    assert!(result.contains("怪牌"));
    assert!(!result.contains("Bash [id=BASH]"), "known card not flagged");
}

#[test]
fn search_finds_hand_card() {
    let mut gs = monster_state();
    gs.player = Some(player_with_hand("Ironclad", vec![card("StrikeIronclad", "Strike")]));
    let result = search_game_knowledge(&gs, &kb());
    assert!(!result.is_empty(), "should find StrikeIronclad in cards.md");
}

#[test]
fn search_finds_enemy() {
    let mut gs = monster_state();
    gs.battle = Some(Battle {
        round: None,
        turn: None,
        is_play_phase: None,
        enemies: vec![enemy("JAW_WORM_0", "Jaw Worm")],
    });
    let result = search_game_knowledge(&gs, &kb());
    assert!(!result.is_empty(), "should find JawWorm in monsters.md");
    assert!(result.contains("[敌人索引]\n| JawWorm | 40-44 |"));
}

#[test]
fn lookup_query_exact_text() {
    assert_eq!(lookup_query("bash", &kb()), "[卡牌]\n| Bash | 2 | Attack |\n");
}

#[test]
fn lookup_without_directory_is_empty() {
    let missing = KnowledgeBase { dir_exists: false, files: Vec::new() };
    assert_eq!(lookup_query("Bash", &missing), "");
    assert_eq!(search_game_knowledge(&monster_state(), &missing), "");
}

#[test]
fn perform_lookup_reports_used_query() {
    let gs = GameState::empty();
    let o = perform_lookup("Cultist", &gs, &kb());
    assert_eq!(o.used, "Cultist");
    assert_eq!(o.result, "[敌人]\n| Cultist | 48-54 |\n");
}

#[test]
fn first_column_of_a_row() {
    assert_eq!(first_column("| JawWorm | 40-44 |"), "JawWorm");
    assert_eq!(first_column("||x|"), "x");
}

#[test]
fn table_rows_by_ids() {
    let cards = CARDS.to_string();
    let ids = vec!["bash".to_string(), "DEFEND".to_string()];
    assert_eq!(
        lookup_in_table(&ids, Some(&cards)),
        "| Bash | 2 | Attack |\n| DefendIronclad | 1 | Skill |"
    );
    assert_eq!(lookup_in_table(&ids, None), "");
}

#[test]
fn unknown_hand_cards_listed() {
    let mut gs = monster_state();
    gs.player = Some(player_with_hand("", vec![card("ODD_CARD", "奇牌")]));
    let t = find_unknown_hand_cards(&gs, &kb());
    assert!(t.starts_with("\n[!] 以下手牌知识库未收录: 奇牌 [id=ODD_CARD]\n"));
}

#[test]
fn playbook_sections_by_screen() {
    let pb = PLAYBOOK.to_string();
    let gs = monster_state();
    assert_eq!(lookup_playbook(&gs, Some(&pb)), "## Combat\nBlock big hits.");
    let mut shop = GameState::empty();
    shop.state_type = StateType::Shop;
    assert_eq!(lookup_playbook(&shop, Some(&pb)), "## Shop\nBuy removal.");
    assert_eq!(lookup_playbook(&GameState::empty(), Some(&pb)), "");
}

#[test]
fn ids_are_sorted_and_unique() {
    let ids = vec!["b".to_string(), "a".to_string(), "b".to_string()];
    assert_eq!(dedup_ids(ids), vec!["a".to_string(), "b".to_string()]);
}

#[test]
fn card_and_enemy_ids_collected() {
    let mut gs = monster_state();
    gs.player = Some(player_with_hand("", vec![card("STRIKE_R", "Strike")]));
    gs.battle = Some(Battle {
        round: None,
        turn: None,
        is_play_phase: None,
        enemies: vec![enemy("JAW_WORM_0", "Jaw Worm")],
    });
    assert_eq!(collect_card_ids(&gs), vec!["STRIKE".to_string(), "Strike".to_string()]);
    assert_eq!(collect_enemy_ids(&gs), vec!["jawworm".to_string()]);
}

#[test]
fn budget_appends_sections() {
    let mut b = Budget::new(2000);
    b.append("T", "abc");
    b.append("Empty", "");
    b.prepend_raw("!");
    assert_eq!(b.finish(), "![T]\nabc\n\n");
}

#[test]
fn budget_cuts_what_does_not_fit() {
    let mut b = Budget::new(30);
    b.append("T", &"x".repeat(40));
    b.append("Later", "y");
    assert_eq!(b.finish(), format!("[T]\n{}...\n\n", "x".repeat(24)));
    let mut small = Budget::new(10);
    small.append("T", &"x".repeat(40));
    assert_eq!(small.finish(), "");
}

#[test]
fn wiki_answers_formatted() {
    assert_eq!(format_wiki_answer(None), "");
    assert_eq!(format_wiki_answer(Some("  Error: no tool ")), "");
    assert_eq!(format_wiki_answer(Some("  found it \n")), "found it");
    let long = "a".repeat(1200);
    assert_eq!(format_wiki_answer(Some(&long)), format!("{}\n...", "a".repeat(1000)));
}


fn kb_with_cards(cards: String) -> KnowledgeBase {
    KnowledgeBase { dir_exists: true, files: vec![("cards.md".to_string(), cards)] }
}

#[test]
fn lookup_cut_counts_characters() {
    let long_cjk = "伤".repeat(700);
    let kb = kb_with_cards(format!("| Bash | {long_cjk} |\n"));
    let r = lookup_query("Bash", &kb);
    assert!(r.len() > 1500);
    assert!(r.chars().count() < 1500);
    assert!(!r.ends_with("\n..."));
    let longer = "伤".repeat(1600);
    let kb2 = kb_with_cards(format!("| Bash | {longer} |\n"));
    let r2 = lookup_query("Bash", &kb2);
    assert!(r2.ends_with("\n..."));
    assert_eq!(r2.chars().count(), 1504);
}

#[test]
fn knowledge_context_is_cut_to_two_thousand_characters() {
    let row = "x".repeat(1900);
    let big = kb_with_cards(format!("| Bash | {row} |\n"));
    let mut gs = GameState::empty();
    gs.state_type = StateType::Monster;
    gs.player = Some(player_with_hand("Ironclad", vec![card("Bash", "Bash"), card("WEIRD_X", "怪牌")]));
    let r = search_game_knowledge(&gs, &big);
    assert!(r.starts_with("\n[!] 以下手牌知识库未收录"));
    assert!(r.ends_with("...\n\n"));
    assert_eq!(r.chars().count(), 2005);
    let small = search_game_knowledge(&monster_state(), &kb());
    assert!(small.chars().count() <= 2000);
}

#[test]
fn lookup_answers_any_spelling_of_an_ascii_query_alike() {
    for q in ["bash", "Jaw_Worm", "strike_r", "StrikeIronclad"] {
        let r = lookup_query(q, &kb());
        assert_eq!(lookup_query(&q.to_ascii_uppercase(), &kb()), r);
        assert_eq!(lookup_query(&q.to_ascii_lowercase(), &kb()), r);
    }
    assert_eq!(lookup_query("BASH", &kb()), "[卡牌]\n| Bash | 2 | Attack |\n");
}
