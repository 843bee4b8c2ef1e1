//! Reading the model's output as game-tool calls.
//!
//! A text action line reads `ACTION: tool_name | key=value | key=value`.  Values
//! that are plain integers become integers, everything else stays a string.
//! Tool names and parameter names are brought to the names the game server uses.
use vstd::prelude::*;

use crate::json::{
    json_parse, json_render, lemma_object_view, members_get, members_insert, members_map,
    members_remove, members_wf, mkeys, mvals, parse_json, render_json, Json, JsonValue,
};
use crate::json::str_eq;
use crate::text::{
    append_seq, char_is_alphanumeric, chars_of, copy_str, dec_int, find_char, i128_to_string,
    lines, lowercase, parse_i64, parse_i64_vec, split, split_once, starts_with,
    string_from_chars, strip_suffix_all, strip_suffix_all_vec, to_lowercase, to_uppercase, trim,
    trim_start, trim_start_char, trim_start_char_vec, trim_start_vec, trim_vec,
    unicode_alphanumeric, uppercase, vec_has_char, vec_lines, vec_split, vec_split_once,
    vec_starts_with, views,
};

verus! {

/// A game-tool call read from the model's output.
#[derive(Debug)]
pub struct ParsedAction {
    pub tool: String,
    /// The call's arguments: an object with distinct member names.
    pub args: JsonValue,
}

/// Why a model output could not be read as a tool call.
#[derive(Debug, Clone, PartialEq, Eq)]
pub enum ActionParseError {
    /// No line of the output is an action line.
    NoActionLine,
    /// The action line names no tool.
    MissingToolName,
    /// The arguments of a native tool call are not JSON; holds the arguments text.
    InvalidToolArguments(String),
}

impl ActionParseError {
    /// The message shown for the error.
    pub fn message(&self) -> (r: String)
        ensures
            match self {
                ActionParseError::NoActionLine => r@ == "LLM 输出中未找到 ACTION: 行"@,
                ActionParseError::MissingToolName => r@ == "ACTION 行缺少 tool name"@,
                ActionParseError::InvalidToolArguments(a) => r@ == "invalid tool arguments JSON: "@
                    + a@,
            },
    {
        match self {
            ActionParseError::NoActionLine => copy_str("LLM 输出中未找到 ACTION: 行"),
            ActionParseError::MissingToolName => copy_str("ACTION 行缺少 tool name"),
            ActionParseError::InvalidToolArguments(a) => {
                let mut m = copy_str("invalid tool arguments JSON: ");
                let v = chars_of(a.as_str());
                append_seq(&mut m, &v);
                m
            },
        }
    }
}

/// `args` is an object with distinct member names that denotes the map `m`.
pub open spec fn args_denote(args: JsonValue, m: Map<Seq<char>, Json>) -> bool {
    &&& args is Object
    &&& members_wf(args->Object_0@)
    &&& members_map(args->Object_0@) == m
}

// ---------------------------------------------------------------------------
// Specification
// ---------------------------------------------------------------------------

/// A NOTE line: after leading whitespace, upper-cased, it starts with `NOTE:`.
pub open spec fn note_line(line: Seq<char>) -> bool {
    starts_with(uppercase(trim_start(line)), "NOTE:"@)
}

/// The characters a bare tool name may hold.
pub open spec fn tool_name_chars(t: Seq<char>) -> bool {
    forall|i: int| 0 <= i < t.len() ==> unicode_alphanumeric(#[trigger] t[i]) || t[i] == '_'
}

/// An action line: it starts with `ACTION:` (any case, after leading whitespace),
/// or it reads `tool_name | ...=...` with a non-empty bare tool name.
pub open spec fn action_line(line: Seq<char>) -> bool {
    let t = trim_start(line);
    if starts_with(uppercase(t), "ACTION:"@) {
        true
    } else {
        match split_once(t, '|') {
            Some((tool, rest)) => {
                let tt = trim(tool);
                tool_name_chars(tt) && tt.len() > 0 && find_char(rest, '=') is Some
            },
            None => false,
        }
    }
}

/// The text of an action line after its `ACTION:` prefix.
pub open spec fn action_text(line: Seq<char>) -> Seq<char> {
    let t = trim_start(line);
    if starts_with(uppercase(t), "ACTION:"@) {
        match split_once(t, ':') {
            Some((_, b)) => trim(b),
            None => Seq::empty(),
        }
    } else {
        t
    }
}

/// The text of a NOTE line after its prefix.
pub open spec fn note_text(line: Seq<char>) -> Seq<char> {
    match split_once(trim_start(line), ':') {
        Some((_, b)) => trim(b),
        None => Seq::empty(),
    }
}

/// The non-empty notes of the NOTE lines, in order.
pub open spec fn notes_of(ls: Seq<Seq<char>>) -> Seq<Seq<char>>
    decreases ls.len(),
{
    if ls.len() == 0 {
        Seq::empty()
    } else {
        let prev = notes_of(ls.drop_last());
        let l = ls.last();
        if note_line(l) && note_text(l).len() > 0 {
            prev.push(note_text(l))
        } else {
            prev
        }
    }
}

/// A value as the action line writes it: an integer when it reads as one.
pub open spec fn value_of(v: Seq<char>) -> Json {
    match parse_i64(v) {
        Some(n) => Json::Int(n as int),
        None => Json::Str(v),
    }
}

/// The text a non-string value is turned into where a string is required.
pub open spec fn value_text(v: Json) -> Seq<char> {
    match v {
        Json::Int(n) => dec_int(n),
        Json::Float(s) => s,
        Json::Bool(b) => if b {
            "true"@
        } else {
            "false"@
        },
        _ => json_render(v),
    }
}

/// The canonical game-tool name for an already lower-cased name.
pub open spec fn tool_alias(l: Seq<char>) -> Seq<char> {
    if l == "play_card"@ || l == "playcard"@ || l == "combat_play_card"@ {
        "combat_play_card"@
    } else if l == "end_turn"@ || l == "endturn"@ || l == "combat_end_turn"@ {
        "combat_end_turn"@
    } else if l == "choose_map_node"@ || l == "map_node"@ || l == "map_choose_node"@ {
        "map_choose_node"@
    } else if l == "claim_reward"@ || l == "claim"@ || l == "rewards_claim"@ {
        "rewards_claim"@
    } else if l == "proceed"@ || l == "proceed_to_map"@ {
        "proceed_to_map"@
    } else if l == "skip_card"@ || l == "skip_card_reward"@ || l == "rewards_skip_card"@ {
        "rewards_skip_card"@
    } else if l == "pick_card"@ || l == "pick"@ || l == "select_card_reward"@ || l
        == "rewards_pick_card"@ {
        "rewards_pick_card"@
    } else if l == "choose_event_option"@ || l == "event_option"@ || l == "event_choose_option"@ {
        "event_choose_option"@
    } else if l == "advance_dialogue"@ || l == "event_advance_dialogue"@ {
        "event_advance_dialogue"@
    } else if l == "rest"@ || l == "rest_option"@ || l == "choose_rest_option"@ || l
        == "rest_choose_option"@ {
        "rest_choose_option"@
    } else if l == "shop_buy"@ || l == "buy"@ || l == "shop_purchase"@ {
        "shop_purchase"@
    } else if l == "select_card"@ || l == "deck_select_card"@ {
        "deck_select_card"@
    } else if l == "confirm"@ || l == "confirm_selection"@ || l == "deck_confirm_selection"@ {
        "deck_confirm_selection"@
    } else if l == "cancel"@ || l == "cancel_selection"@ || l == "deck_cancel_selection"@ {
        "deck_cancel_selection"@
    } else if l == "select_relic"@ || l == "relic_select"@ {
        "relic_select"@
    } else if l == "skip_relic"@ || l == "skip_relic_selection"@ || l == "relic_skip"@ {
        "relic_skip"@
    } else if l == "claim_treasure_relic"@ || l == "treasure_claim_relic"@ {
        "treasure_claim_relic"@
    } else if l == "select_bundle"@ || l == "bundle_select"@ {
        "bundle_select"@
    } else if l == "confirm_bundle"@ || l == "confirm_bundle_selection"@ || l
        == "bundle_confirm_selection"@ {
        "bundle_confirm_selection"@
    } else if l == "cancel_bundle"@ || l == "cancel_bundle_selection"@ || l
        == "bundle_cancel_selection"@ {
        "bundle_cancel_selection"@
    } else if l == "menu_select"@ {
        "menu_select"@
    } else if l == "query"@ || l == "query_knowledge"@ || l == "knowledge"@ || l == "lookup"@ {
        "lookup"@
    } else if l == "auto"@ || l == "auto_on"@ || l == "autoplay"@ || l == "auto_start"@ {
        "auto_start"@
    } else if l == "stop_auto"@ || l == "auto_off"@ || l == "stop_play"@ || l == "auto_stop"@ {
        "auto_stop"@
    } else {
        l
    }
}

/// Each result of the alias table is mapped to itself, and so are the
/// potion tools, which the table leaves alone.
pub proof fn lemma_tool_alias_fixed()
    ensures
        tool_alias("use_potion"@) == "use_potion"@,
        tool_alias("discard_potion"@) == "discard_potion"@,
        tool_alias("combat_play_card"@) == "combat_play_card"@,
        tool_alias("combat_end_turn"@) == "combat_end_turn"@,
        tool_alias("map_choose_node"@) == "map_choose_node"@,
        tool_alias("rewards_claim"@) == "rewards_claim"@,
        tool_alias("proceed_to_map"@) == "proceed_to_map"@,
        tool_alias("rewards_skip_card"@) == "rewards_skip_card"@,
        tool_alias("rewards_pick_card"@) == "rewards_pick_card"@,
        tool_alias("event_choose_option"@) == "event_choose_option"@,
        tool_alias("event_advance_dialogue"@) == "event_advance_dialogue"@,
        tool_alias("rest_choose_option"@) == "rest_choose_option"@,
        tool_alias("shop_purchase"@) == "shop_purchase"@,
        tool_alias("deck_select_card"@) == "deck_select_card"@,
        tool_alias("deck_confirm_selection"@) == "deck_confirm_selection"@,
        tool_alias("deck_cancel_selection"@) == "deck_cancel_selection"@,
        tool_alias("relic_select"@) == "relic_select"@,
        tool_alias("relic_skip"@) == "relic_skip"@,
        tool_alias("treasure_claim_relic"@) == "treasure_claim_relic"@,
        tool_alias("bundle_select"@) == "bundle_select"@,
        tool_alias("bundle_confirm_selection"@) == "bundle_confirm_selection"@,
        tool_alias("bundle_cancel_selection"@) == "bundle_cancel_selection"@,
        tool_alias("menu_select"@) == "menu_select"@,
        tool_alias("lookup"@) == "lookup"@,
        tool_alias("auto_start"@) == "auto_start"@,
        tool_alias("auto_stop"@) == "auto_stop"@,
{
    reveal_strlit("play_card");
    reveal_strlit("playcard");
    reveal_strlit("combat_play_card");
    reveal_strlit("end_turn");
    reveal_strlit("endturn");
    reveal_strlit("combat_end_turn");
    reveal_strlit("choose_map_node");
    reveal_strlit("map_node");
    reveal_strlit("map_choose_node");
    reveal_strlit("claim_reward");
    reveal_strlit("claim");
    reveal_strlit("rewards_claim");
    reveal_strlit("proceed");
    reveal_strlit("proceed_to_map");
    reveal_strlit("skip_card");
    reveal_strlit("skip_card_reward");
    reveal_strlit("rewards_skip_card");
    reveal_strlit("pick_card");
    reveal_strlit("pick");
    reveal_strlit("select_card_reward");
    reveal_strlit("rewards_pick_card");
    reveal_strlit("choose_event_option");
    reveal_strlit("event_option");
    reveal_strlit("event_choose_option");
    reveal_strlit("advance_dialogue");
    reveal_strlit("event_advance_dialogue");
    reveal_strlit("rest");
    reveal_strlit("rest_option");
    reveal_strlit("choose_rest_option");
    reveal_strlit("rest_choose_option");
    reveal_strlit("shop_buy");
    reveal_strlit("buy");
    reveal_strlit("shop_purchase");
    reveal_strlit("select_card");
    reveal_strlit("deck_select_card");
    reveal_strlit("confirm");
    reveal_strlit("confirm_selection");
    reveal_strlit("deck_confirm_selection");
    reveal_strlit("cancel");
    reveal_strlit("cancel_selection");
    reveal_strlit("deck_cancel_selection");
    reveal_strlit("select_relic");
    reveal_strlit("relic_select");
    reveal_strlit("skip_relic");
    reveal_strlit("skip_relic_selection");
    reveal_strlit("relic_skip");
    reveal_strlit("claim_treasure_relic");
    reveal_strlit("treasure_claim_relic");
    reveal_strlit("select_bundle");
    reveal_strlit("bundle_select");
    reveal_strlit("confirm_bundle");
    reveal_strlit("confirm_bundle_selection");
    reveal_strlit("bundle_confirm_selection");
    reveal_strlit("cancel_bundle");
    reveal_strlit("cancel_bundle_selection");
    reveal_strlit("bundle_cancel_selection");
    reveal_strlit("menu_select");
    reveal_strlit("query");
    reveal_strlit("query_knowledge");
    reveal_strlit("knowledge");
    reveal_strlit("lookup");
    reveal_strlit("auto");
    reveal_strlit("auto_on");
    reveal_strlit("autoplay");
    reveal_strlit("auto_start");
    reveal_strlit("stop_auto");
    reveal_strlit("auto_off");
    reveal_strlit("stop_play");
    reveal_strlit("auto_stop");
    reveal_strlit("use_potion");
    reveal_strlit("discard_potion");
    assert(tool_alias("use_potion"@) == "use_potion"@) by {
        assert("use_potion"@.len() == 10);
        assert("use_potion"@[0] == 'u');
        assert("skip_relic"@[0] == 's');
        assert("use_potion"@[0] == 'u');
        assert("relic_skip"@[0] == 'r');
        assert("use_potion"@[0] == 'u');
        assert("auto_start"@[0] == 'a');
    }
    assert(tool_alias("discard_potion"@) == "discard_potion"@) by {
        assert("discard_potion"@.len() == 14);
        assert("discard_potion"@[0] == 'd');
        assert("proceed_to_map"@[0] == 'p');
        assert("discard_potion"@[0] == 'd');
        assert("confirm_bundle"@[0] == 'c');
    }
    assert(tool_alias("combat_play_card"@) == "combat_play_card"@) by {
        assert("combat_play_card"@.len() == 16);
    }
    assert(tool_alias("combat_end_turn"@) == "combat_end_turn"@) by {
        assert("combat_end_turn"@.len() == 15);
    }
    assert(tool_alias("map_choose_node"@) == "map_choose_node"@) by {
        assert("map_choose_node"@.len() == 15);
        assert("map_choose_node"@[0] == 'm');
        assert("combat_end_turn"@[0] == 'c');
    }
    assert(tool_alias("rewards_claim"@) == "rewards_claim"@) by {
        assert("rewards_claim"@.len() == 13);
    }
    assert(tool_alias("proceed_to_map"@) == "proceed_to_map"@) by {
        assert("proceed_to_map"@.len() == 14);
    }
    assert(tool_alias("rewards_skip_card"@) == "rewards_skip_card"@) by {
        assert("rewards_skip_card"@.len() == 17);
    }
    assert(tool_alias("rewards_pick_card"@) == "rewards_pick_card"@) by {
        assert("rewards_pick_card"@.len() == 17);
        assert("rewards_pick_card"@[8] == 'p');
        assert("rewards_skip_card"@[8] == 's');
    }
    assert(tool_alias("event_choose_option"@) == "event_choose_option"@) by {
        assert("event_choose_option"@.len() == 19);
    }
    assert(tool_alias("event_advance_dialogue"@) == "event_advance_dialogue"@) by {
        assert("event_advance_dialogue"@.len() == 22);
    }
    assert(tool_alias("rest_choose_option"@) == "rest_choose_option"@) by {
        assert("rest_choose_option"@.len() == 18);
        assert("rest_choose_option"@[0] == 'r');
        assert("select_card_reward"@[0] == 's');
    }
    assert(tool_alias("shop_purchase"@) == "shop_purchase"@) by {
        assert("shop_purchase"@.len() == 13);
        assert("shop_purchase"@[0] == 's');
        assert("rewards_claim"@[0] == 'r');
    }
    assert(tool_alias("deck_select_card"@) == "deck_select_card"@) by {
        assert("deck_select_card"@.len() == 16);
        assert("deck_select_card"@[0] == 'd');
        assert("combat_play_card"@[0] == 'c');
        assert("deck_select_card"@[0] == 'd');
        assert("skip_card_reward"@[0] == 's');
        assert("deck_select_card"@[0] == 'd');
        assert("advance_dialogue"@[0] == 'a');
    }
    assert(tool_alias("deck_confirm_selection"@) == "deck_confirm_selection"@) by {
        assert("deck_confirm_selection"@.len() == 22);
        assert("deck_confirm_selection"@[0] == 'd');
        assert("event_advance_dialogue"@[0] == 'e');
    }
    assert(tool_alias("deck_cancel_selection"@) == "deck_cancel_selection"@) by {
        assert("deck_cancel_selection"@.len() == 21);
    }
    assert(tool_alias("relic_select"@) == "relic_select"@) by {
        assert("relic_select"@.len() == 12);
        assert("relic_select"@[0] == 'r');
        assert("claim_reward"@[0] == 'c');
        assert("relic_select"@[0] == 'r');
        assert("event_option"@[0] == 'e');
    }
    assert(tool_alias("relic_skip"@) == "relic_skip"@) by {
        assert("relic_skip"@.len() == 10);
    }
    assert(tool_alias("treasure_claim_relic"@) == "treasure_claim_relic"@) by {
        assert("treasure_claim_relic"@.len() == 20);
        assert("treasure_claim_relic"@[0] == 't');
        assert("skip_relic_selection"@[0] == 's');
    }
    assert(tool_alias("bundle_select"@) == "bundle_select"@) by {
        assert("bundle_select"@.len() == 13);
        assert("bundle_select"@[0] == 'b');
        assert("rewards_claim"@[0] == 'r');
        assert("bundle_select"@[0] == 'b');
        assert("shop_purchase"@[0] == 's');
    }
    assert(tool_alias("bundle_confirm_selection"@) == "bundle_confirm_selection"@) by {
        assert("bundle_confirm_selection"@.len() == 24);
    }
    assert(tool_alias("bundle_cancel_selection"@) == "bundle_cancel_selection"@) by {
        assert("bundle_cancel_selection"@.len() == 23);
    }
    assert(tool_alias("menu_select"@) == "menu_select"@) by {
        assert("menu_select"@.len() == 11);
        assert("menu_select"@[0] == 'm');
        assert("rest_option"@[0] == 'r');
        assert("menu_select"@[0] == 'm');
        assert("select_card"@[0] == 's');
    }
    assert(tool_alias("lookup"@) == "lookup"@) by {
        assert("lookup"@.len() == 6);
        assert("lookup"@[0] == 'l');
        assert("cancel"@[0] == 'c');
    }
    assert(tool_alias("auto_start"@) == "auto_start"@) by {
        assert("auto_start"@.len() == 10);
        assert("auto_start"@[0] == 'a');
        assert("skip_relic"@[0] == 's');
        assert("auto_start"@[0] == 'a');
        assert("relic_skip"@[0] == 'r');
    }
    assert(tool_alias("auto_stop"@) == "auto_stop"@) by {
        assert("auto_stop"@.len() == 9);
        assert("auto_stop"@[0] == 'a');
        assert("play_card"@[0] == 'p');
        assert("auto_stop"@[0] == 'a');
        assert("skip_card"@[0] == 's');
        assert("auto_stop"@[0] == 'a');
        assert("pick_card"@[0] == 'p');
        assert("auto_stop"@[0] == 'a');
        assert("knowledge"@[0] == 'k');
    }
}

/// The alias table maps each of its results to itself: a canonical tool
/// name, once reached, stays as it is.
pub proof fn lemma_tool_alias_idempotent(l: Seq<char>)
    ensures
        tool_alias(tool_alias(l)) == tool_alias(l),
{
    lemma_tool_alias_fixed();
    assert(tool_alias(l) == l || tool_alias(l) == "combat_play_card"@ || tool_alias(l) == "combat_end_turn"@ || tool_alias(l) == "map_choose_node"@ || tool_alias(l) == "rewards_claim"@ || tool_alias(l) == "proceed_to_map"@ || tool_alias(l) == "rewards_skip_card"@ || tool_alias(l) == "rewards_pick_card"@ || tool_alias(l) == "event_choose_option"@ || tool_alias(l) == "event_advance_dialogue"@ || tool_alias(l) == "rest_choose_option"@ || tool_alias(l) == "shop_purchase"@ || tool_alias(l) == "deck_select_card"@ || tool_alias(l) == "deck_confirm_selection"@ || tool_alias(l) == "deck_cancel_selection"@ || tool_alias(l) == "relic_select"@ || tool_alias(l) == "relic_skip"@ || tool_alias(l) == "treasure_claim_relic"@ || tool_alias(l) == "bundle_select"@ || tool_alias(l) == "bundle_confirm_selection"@ || tool_alias(l) == "bundle_cancel_selection"@ || tool_alias(l) == "menu_select"@ || tool_alias(l) == "lookup"@ || tool_alias(l) == "auto_start"@ || tool_alias(l) == "auto_stop"@);
}

/// A name of lower-case ASCII letters and underscores.
pub open spec fn is_lower_ascii_name(s: Seq<char>) -> bool {
    forall|i: int| 0 <= i < s.len() ==> ('a' <= #[trigger] s[i] && s[i] <= 'z') || s[i] == '_'
}

/// A lower-case ASCII name is ASCII and ASCII lower-casing keeps it.
pub proof fn lemma_lower_ascii_name(s: Seq<char>)
    requires
        is_lower_ascii_name(s),
    ensures
        crate::text::is_ascii_str(s),
        crate::text::ascii_lower(s) == s,
{
    assert(crate::text::ascii_lower(s) =~= s);
}

/// Each result of the alias table is a lower-case ASCII name.
proof fn lemma_tool_alias_results_lower()
    ensures
        is_lower_ascii_name("combat_play_card"@),
        is_lower_ascii_name("combat_end_turn"@),
        is_lower_ascii_name("map_choose_node"@),
        is_lower_ascii_name("rewards_claim"@),
        is_lower_ascii_name("proceed_to_map"@),
        is_lower_ascii_name("rewards_skip_card"@),
        is_lower_ascii_name("rewards_pick_card"@),
        is_lower_ascii_name("event_choose_option"@),
        is_lower_ascii_name("event_advance_dialogue"@),
        is_lower_ascii_name("rest_choose_option"@),
        is_lower_ascii_name("shop_purchase"@),
        is_lower_ascii_name("deck_select_card"@),
        is_lower_ascii_name("deck_confirm_selection"@),
        is_lower_ascii_name("deck_cancel_selection"@),
        is_lower_ascii_name("relic_select"@),
        is_lower_ascii_name("relic_skip"@),
        is_lower_ascii_name("treasure_claim_relic"@),
        is_lower_ascii_name("bundle_select"@),
        is_lower_ascii_name("bundle_confirm_selection"@),
        is_lower_ascii_name("bundle_cancel_selection"@),
        is_lower_ascii_name("menu_select"@),
        is_lower_ascii_name("lookup"@),
        is_lower_ascii_name("auto_start"@),
        is_lower_ascii_name("auto_stop"@),
{
    reveal_strlit("combat_play_card");
    reveal_strlit("combat_end_turn");
    reveal_strlit("map_choose_node");
    reveal_strlit("rewards_claim");
    reveal_strlit("proceed_to_map");
    reveal_strlit("rewards_skip_card");
    reveal_strlit("rewards_pick_card");
    reveal_strlit("event_choose_option");
    reveal_strlit("event_advance_dialogue");
    reveal_strlit("rest_choose_option");
    reveal_strlit("shop_purchase");
    reveal_strlit("deck_select_card");
    reveal_strlit("deck_confirm_selection");
    reveal_strlit("deck_cancel_selection");
    reveal_strlit("relic_select");
    reveal_strlit("relic_skip");
    reveal_strlit("treasure_claim_relic");
    reveal_strlit("bundle_select");
    reveal_strlit("bundle_confirm_selection");
    reveal_strlit("bundle_cancel_selection");
    reveal_strlit("menu_select");
    reveal_strlit("lookup");
    reveal_strlit("auto_start");
    reveal_strlit("auto_stop");
    assert(is_lower_ascii_name("combat_play_card"@));
    assert(is_lower_ascii_name("combat_end_turn"@));
    assert(is_lower_ascii_name("map_choose_node"@));
    assert(is_lower_ascii_name("rewards_claim"@));
    assert(is_lower_ascii_name("proceed_to_map"@));
    assert(is_lower_ascii_name("rewards_skip_card"@));
    assert(is_lower_ascii_name("rewards_pick_card"@));
    assert(is_lower_ascii_name("event_choose_option"@));
    assert(is_lower_ascii_name("event_advance_dialogue"@));
    assert(is_lower_ascii_name("rest_choose_option"@));
    assert(is_lower_ascii_name("shop_purchase"@));
    assert(is_lower_ascii_name("deck_select_card"@));
    assert(is_lower_ascii_name("deck_confirm_selection"@));
    assert(is_lower_ascii_name("deck_cancel_selection"@));
    assert(is_lower_ascii_name("relic_select"@));
    assert(is_lower_ascii_name("relic_skip"@));
    assert(is_lower_ascii_name("treasure_claim_relic"@));
    assert(is_lower_ascii_name("bundle_select"@));
    assert(is_lower_ascii_name("bundle_confirm_selection"@));
    assert(is_lower_ascii_name("bundle_cancel_selection"@));
    assert(is_lower_ascii_name("menu_select"@));
    assert(is_lower_ascii_name("lookup"@));
    assert(is_lower_ascii_name("auto_start"@));
    assert(is_lower_ascii_name("auto_stop"@));
}

/// On an ASCII name, normalizing is idempotent and ignores case: the result
/// is an ASCII name that lower-casing keeps and the alias table maps to
/// itself, and the upper-case spelling of a name normalizes as the name does.
pub proof fn lemma_normalize_tool_ascii(name: Seq<char>)
    requires
        crate::text::is_ascii_str(name),
    ensures
        ({
            let r = tool_alias(crate::text::ascii_lower(name));
            &&& crate::text::is_ascii_str(r)
            &&& crate::text::ascii_lower(r) == r
            &&& tool_alias(crate::text::ascii_lower(r)) == r
            &&& crate::text::is_ascii_str(crate::text::ascii_upper(name))
            &&& tool_alias(crate::text::ascii_lower(crate::text::ascii_upper(name))) == r
        }),
{
    let l = crate::text::ascii_lower(name);
    assert(crate::text::ascii_lower(l) =~= l);
    assert(crate::text::is_ascii_str(l)) by {
        assert forall|i: int| 0 <= i < l.len() implies crate::text::is_ascii_char(#[trigger] l[i]) by {
            assert(crate::text::is_ascii_char(name[i]));
        }
    }
    assert(crate::text::ascii_lower(crate::text::ascii_upper(name)) =~= l);
    assert(crate::text::is_ascii_str(crate::text::ascii_upper(name))) by {
        assert forall|i: int| 0 <= i < name.len() implies crate::text::is_ascii_char(
            #[trigger] crate::text::ascii_upper(name)[i],
        ) by {
            assert(crate::text::is_ascii_char(name[i]));
        }
    }
    lemma_tool_alias_fixed();
    lemma_tool_alias_results_lower();
    let r = tool_alias(l);
    if r != l {
        assert(r == "combat_play_card"@ || r == "combat_end_turn"@ || r == "map_choose_node"@ || r == "rewards_claim"@ || r == "proceed_to_map"@ || r == "rewards_skip_card"@ || r == "rewards_pick_card"@ || r == "event_choose_option"@ || r == "event_advance_dialogue"@ || r == "rest_choose_option"@ || r == "shop_purchase"@ || r == "deck_select_card"@ || r == "deck_confirm_selection"@ || r == "deck_cancel_selection"@ || r == "relic_select"@ || r == "relic_skip"@ || r == "treasure_claim_relic"@ || r == "bundle_select"@ || r == "bundle_confirm_selection"@ || r == "bundle_cancel_selection"@ || r == "menu_select"@ || r == "lookup"@ || r == "auto_start"@ || r == "auto_stop"@);
        lemma_lower_ascii_name(r);
    }
}

/// The canonical game-tool name of a name as the model wrote it.
pub open spec fn tool_name(name: Seq<char>) -> Seq<char> {
    tool_alias(lowercase(name))
}

/// The parameter a generic `index` becomes for a tool.
pub open spec fn index_param(tool: Seq<char>) -> Seq<char> {
    if tool == "rewards_claim"@ {
        "reward_index"@
    } else if tool == "map_choose_node"@ {
        "node_index"@
    } else if tool == "event_choose_option"@ || tool == "rest_choose_option"@ {
        "option_index"@
    } else if tool == "shop_purchase"@ {
        "item_index"@
    } else if tool == "relic_select"@ || tool == "treasure_claim_relic"@ {
        "relic_index"@
    } else if tool == "bundle_select"@ {
        "bundle_index"@
    } else {
        "index"@
    }
}

/// After normalizing, the arguments hold `v` under `key` and have no `index`
/// member.
pub open spec fn index_moved_to(r: Map<Seq<char>, Json>, key: Seq<char>, v: Json) -> bool {
    r.contains_key(key) && r[key] == v && !r.contains_key("index"@)
}

/// A generic `index` argument takes the name the game server expects for
/// the tool, keeping its value: `reward_index` for `rewards_claim`,
/// `node_index` for `map_choose_node`, `option_index` for
/// `event_choose_option` and `rest_choose_option`, `item_index` for
/// `shop_purchase`, `relic_index` for `relic_select` and
/// `treasure_claim_relic`, `bundle_index` for `bundle_select`.  Any other
/// tool keeps the `index` argument as it is.
pub proof fn lemma_index_renamed(tool: Seq<char>, m: Map<Seq<char>, Json>)
    requires
        m.contains_key("index"@),
    ensures
        ({
            let r = normalized_args(tool, m);
            let v = m["index"@];
            &&& tool == "rewards_claim"@ ==> index_moved_to(r, "reward_index"@, v)
            &&& tool == "map_choose_node"@ ==> index_moved_to(r, "node_index"@, v)
            &&& tool == "event_choose_option"@ ==> index_moved_to(r, "option_index"@, v)
            &&& tool == "rest_choose_option"@ ==> index_moved_to(r, "option_index"@, v)
            &&& tool == "shop_purchase"@ ==> index_moved_to(r, "item_index"@, v)
            &&& tool == "relic_select"@ ==> index_moved_to(r, "relic_index"@, v)
            &&& tool == "treasure_claim_relic"@ ==> index_moved_to(r, "relic_index"@, v)
            &&& tool == "bundle_select"@ ==> index_moved_to(r, "bundle_index"@, v)
            &&& (tool != "rewards_claim"@ && tool != "map_choose_node"@ && tool
                != "event_choose_option"@ && tool != "rest_choose_option"@ && tool
                != "shop_purchase"@ && tool != "relic_select"@ && tool != "treasure_claim_relic"@
                && tool != "bundle_select"@) ==> r.contains_key("index"@) && r["index"@] == v
        }),
{
    reveal_strlit("index");
    reveal_strlit("reward_index");
    reveal_strlit("node_index");
    reveal_strlit("option_index");
    reveal_strlit("item_index");
    reveal_strlit("relic_index");
    reveal_strlit("bundle_index");
    reveal_strlit("target");
    reveal_strlit("slot");
    reveal_strlit("option");
    reveal_strlit("tool");
    reveal_strlit("rewards_claim");
    reveal_strlit("map_choose_node");
    reveal_strlit("event_choose_option");
    reveal_strlit("rest_choose_option");
    reveal_strlit("shop_purchase");
    reveal_strlit("relic_select");
    reveal_strlit("treasure_claim_relic");
    reveal_strlit("bundle_select");
    assert("index"@.len() == 5);
    assert("reward_index"@.len() == 12);
    assert("node_index"@.len() == 10);
    assert("option_index"@.len() == 12);
    assert("item_index"@.len() == 10);
    assert("relic_index"@.len() == 11);
    assert("bundle_index"@.len() == 12);
    assert("target"@.len() == 6);
    assert("slot"@.len() == 4);
    assert("option"@.len() == 6);
    assert("tool"@.len() == 4);
    assert("rewards_claim"@.len() == 13);
    assert("map_choose_node"@.len() == 15);
    assert("event_choose_option"@.len() == 19);
    assert("rest_choose_option"@.len() == 18);
    assert("shop_purchase"@.len() == 13);
    assert("relic_select"@.len() == 12);
    assert("treasure_claim_relic"@.len() == 20);
    assert("bundle_select"@.len() == 13);
    assert("shop_purchase"@[0] == 's' && "rewards_claim"@[0] == 'r' && "bundle_select"@[0] == 'b');
    assert(index_param("rewards_claim"@) == "reward_index"@);
    assert(index_param("map_choose_node"@) == "node_index"@);
    assert(index_param("event_choose_option"@) == "option_index"@);
    assert(index_param("rest_choose_option"@) == "option_index"@);
    assert(index_param("shop_purchase"@) == "item_index"@);
    assert(index_param("relic_select"@) == "relic_index"@);
    assert(index_param("treasure_claim_relic"@) == "relic_index"@);
    assert(index_param("bundle_select"@) == "bundle_index"@);
}

/// A parameter that must be a string holds its text form when it is not one.
pub open spec fn stringify_param(m: Map<Seq<char>, Json>, key: Seq<char>) -> Map<
    Seq<char>,
    Json,
> {
    if m.contains_key(key) && !(m[key] is Str) {
        m.insert(key, Json::Str(value_text(m[key])))
    } else {
        m
    }
}

/// The argument names and types the game server expects.
pub open spec fn normalized_args(tool: Seq<char>, m: Map<Seq<char>, Json>) -> Map<
    Seq<char>,
    Json,
> {
    let m1 = if m.contains_key("index"@) {
        m.remove("index"@).insert(index_param(tool), m["index"@])
    } else {
        m
    };
    let m2 = stringify_param(m1, "target"@);
    let m3 = if m2.contains_key("slot"@) && m2["slot"@] is Str && parse_i64(
        m2["slot"@]->Str_0,
    ) is Some {
        m2.insert("slot"@, Json::Int(parse_i64(m2["slot"@]->Str_0).unwrap() as int))
    } else {
        m2
    };
    let m4 = stringify_param(m3, "option"@);
    stringify_param(m4, "tool"@)
}

/// The parameter a `key=value` part of an action line sets, if any.
pub open spec fn part_param(part: Seq<char>) -> Option<(Seq<char>, Json)> {
    match split_once(part, '=') {
        Some((k, v)) => {
            let key = trim_start_char(trim(k), '_');
            if key.len() > 0 {
                Some((key, value_of(trim(v))))
            } else {
                None
            }
        },
        None => None,
    }
}

/// The parameters the parts set, a later part overriding an earlier one.
pub open spec fn params_of(parts: Seq<Seq<char>>) -> Map<Seq<char>, Json>
    decreases parts.len(),
{
    if parts.len() == 0 {
        Map::empty()
    } else {
        let m = params_of(parts.drop_last());
        match part_param(parts.last()) {
            Some((k, v)) => m.insert(k, v),
            None => m,
        }
    }
}

/// The `|`-separated parts of an action's text, each trimmed.
pub open spec fn action_parts(line: Seq<char>) -> Seq<Seq<char>> {
    split(action_text(line), '|').map_values(|p: Seq<char>| trim(p))
}

/// The tool and argument map an action line denotes.
pub open spec fn single_action(line: Seq<char>) -> Result<
    (Seq<char>, Map<Seq<char>, Json>),
    ActionParseError,
> {
    let parts = action_parts(line);
    if parts.len() == 0 || parts[0].len() == 0 {
        Err(ActionParseError::MissingToolName)
    } else {
        let tool = tool_name(trim(strip_suffix_all(parts[0], "()"@)));
        Ok((tool, normalized_args(tool, params_of(parts.skip(1)))))
    }
}

/// The steps of the action lines among `ls`, in order: each line's tool and
/// arguments; the first action line that does not read stops the reading
/// with its error.
pub open spec fn steps_in(ls: Seq<Seq<char>>) -> Result<
    Seq<(Seq<char>, Map<Seq<char>, Json>)>,
    ActionParseError,
>
    decreases ls.len(),
{
    if ls.len() == 0 {
        Ok(Seq::empty())
    } else {
        match steps_in(ls.drop_last()) {
            Err(e) => Err(e),
            Ok(ss) => if action_line(ls.last()) {
                match single_action(ls.last()) {
                    Ok(x) => Ok(ss.push(x)),
                    Err(e) => Err(e),
                }
            } else {
                Ok(ss)
            },
        }
    }
}

/// The steps a model output denotes: every action line, read in order; an
/// output without an action line has none to give.
pub open spec fn steps_of(text: Seq<char>) -> Result<
    Seq<(Seq<char>, Map<Seq<char>, Json>)>,
    ActionParseError,
> {
    match steps_in(lines(text)) {
        Ok(ss) => if ss.len() == 0 {
            Err(ActionParseError::NoActionLine)
        } else {
            Ok(ss)
        },
        Err(e) => Err(e),
    }
}

/// The tool calls `v` are the steps `ss`.
pub open spec fn steps_denote(v: Seq<ParsedAction>, ss: Seq<(Seq<char>, Map<Seq<char>, Json>)>) -> bool {
    &&& v.len() == ss.len()
    &&& forall|k: int| 0 <= k < v.len() ==> (#[trigger] v[k]).tool@ == ss[k].0 && args_denote(v[k].args, ss[k].1)
}

/// The map that setting the members in order yields (a later member overrides).
pub open spec fn fold_members(ks: Seq<Seq<char>>, vs: Seq<Json>) -> Map<Seq<char>, Json>
    decreases ks.len(),
{
    if ks.len() == 0 {
        Map::empty()
    } else {
        fold_members(ks.drop_last(), vs).insert(ks.last(), vs[ks.len() - 1])
    }
}

/// The argument map of a native tool call's arguments text: empty for a blank
/// text or a JSON value that is not an object, `None` when the text is not JSON.
pub open spec fn tool_call_args(arguments: Seq<char>) -> Option<Map<Seq<char>, Json>> {
    if trim(arguments).len() == 0 {
        Some(Map::empty())
    } else {
        match json_parse(arguments) {
            None => None,
            Some(v) => Some(
                match v {
                    Json::Object(ks, vs) => fold_members(ks, vs),
                    _ => Map::empty(),
                },
            ),
        }
    }
}


// ---------------------------------------------------------------------------
// Execution
// ---------------------------------------------------------------------------

/// The canonical game-tool name for a lower-cased name: the known aliases
/// map to the game's tool names, any other name stays as it is.
pub fn alias_of(l: &str) -> (r: String)
    ensures
        r@ == tool_alias(l@),
{
    if str_eq(l, "play_card") || str_eq(l, "playcard") || str_eq(l, "combat_play_card") {
        copy_str("combat_play_card")
    } else if str_eq(l, "end_turn") || str_eq(l, "endturn") || str_eq(l, "combat_end_turn") {
        copy_str("combat_end_turn")
    } else if str_eq(l, "choose_map_node") || str_eq(l, "map_node") || str_eq(l, "map_choose_node") {
        copy_str("map_choose_node")
    } else if str_eq(l, "claim_reward") || str_eq(l, "claim") || str_eq(l, "rewards_claim") {
        copy_str("rewards_claim")
    } else if str_eq(l, "proceed") || str_eq(l, "proceed_to_map") {
        copy_str("proceed_to_map")
    } else if str_eq(l, "skip_card") || str_eq(l, "skip_card_reward") || str_eq(l, "rewards_skip_card") {
        copy_str("rewards_skip_card")
    } else if str_eq(l, "pick_card") || str_eq(l, "pick") || str_eq(l, "select_card_reward") || str_eq(l, "rewards_pick_card") {
        copy_str("rewards_pick_card")
    } else if str_eq(l, "choose_event_option") || str_eq(l, "event_option") || str_eq(l, "event_choose_option") {
        copy_str("event_choose_option")
    } else if str_eq(l, "advance_dialogue") || str_eq(l, "event_advance_dialogue") {
        copy_str("event_advance_dialogue")
    } else if str_eq(l, "rest") || str_eq(l, "rest_option") || str_eq(l, "choose_rest_option") || str_eq(l, "rest_choose_option") {
        copy_str("rest_choose_option")
    } else if str_eq(l, "shop_buy") || str_eq(l, "buy") || str_eq(l, "shop_purchase") {
        copy_str("shop_purchase")
    } else if str_eq(l, "select_card") || str_eq(l, "deck_select_card") {
        copy_str("deck_select_card")
    } else if str_eq(l, "confirm") || str_eq(l, "confirm_selection") || str_eq(l, "deck_confirm_selection") {
        copy_str("deck_confirm_selection")
    } else if str_eq(l, "cancel") || str_eq(l, "cancel_selection") || str_eq(l, "deck_cancel_selection") {
        copy_str("deck_cancel_selection")
    } else if str_eq(l, "select_relic") || str_eq(l, "relic_select") {
        copy_str("relic_select")
    } else if str_eq(l, "skip_relic") || str_eq(l, "skip_relic_selection") || str_eq(l, "relic_skip") {
        copy_str("relic_skip")
    } else if str_eq(l, "claim_treasure_relic") || str_eq(l, "treasure_claim_relic") {
        copy_str("treasure_claim_relic")
    } else if str_eq(l, "select_bundle") || str_eq(l, "bundle_select") {
        copy_str("bundle_select")
    } else if str_eq(l, "confirm_bundle") || str_eq(l, "confirm_bundle_selection") || str_eq(l, "bundle_confirm_selection") {
        copy_str("bundle_confirm_selection")
    } else if str_eq(l, "cancel_bundle") || str_eq(l, "cancel_bundle_selection") || str_eq(l, "bundle_cancel_selection") {
        copy_str("bundle_cancel_selection")
    } else if str_eq(l, "menu_select") {
        copy_str("menu_select")
    } else if str_eq(l, "query") || str_eq(l, "query_knowledge") || str_eq(l, "knowledge") || str_eq(l, "lookup") {
        copy_str("lookup")
    } else if str_eq(l, "auto") || str_eq(l, "auto_on") || str_eq(l, "autoplay") || str_eq(l, "auto_start") {
        copy_str("auto_start")
    } else if str_eq(l, "stop_auto") || str_eq(l, "auto_off") || str_eq(l, "stop_play") || str_eq(l, "auto_stop") {
        copy_str("auto_stop")
    } else {
        copy_str(l)
    }
}

/// Brings a tool name as the model wrote it to the game server's tool name.
pub fn normalize_tool(name: &str) -> (r: String)
    ensures
        r@ == tool_name(name@),
        crate::text::is_ascii_str(name@) ==> r@ == tool_alias(crate::text::ascii_lower(name@)),
{
    let l = to_lowercase(name);
    alias_of(l.as_str())
}

fn index_param_of(tool: &str) -> (r: String)
    ensures
        r@ == index_param(tool@),
{
    if str_eq(tool, "rewards_claim") {
        copy_str("reward_index")
    } else if str_eq(tool, "map_choose_node") {
        copy_str("node_index")
    } else if str_eq(tool, "event_choose_option") || str_eq(tool, "rest_choose_option") {
        copy_str("option_index")
    } else if str_eq(tool, "shop_purchase") {
        copy_str("item_index")
    } else if str_eq(tool, "relic_select") || str_eq(tool, "treasure_claim_relic") {
        copy_str("relic_index")
    } else if str_eq(tool, "bundle_select") {
        copy_str("bundle_index")
    } else {
        copy_str("index")
    }
}

/// Whether the upper-cased characters start with `prefix`.
fn upper_starts_with(t: &Vec<char>, prefix: &str) -> (b: bool)
    ensures
        b == starts_with(uppercase(t@), prefix@),
{
    let ts = string_from_chars(t.as_slice());
    let u = to_uppercase(ts.as_str());
    let uv = chars_of(u.as_str());
    let pv = chars_of(prefix);
    vec_starts_with(&uv, &pv)
}

/// Whether a line is a NOTE line.
pub fn is_note_line(line: &str) -> (b: bool)
    ensures
        b == note_line(line@),
{
    let v = chars_of(line);
    let t = trim_start_vec(&v);
    upper_starts_with(&t, "NOTE:")
}

fn tool_chars_ok(t: &Vec<char>) -> (b: bool)
    ensures
        b == tool_name_chars(t@),
{
    let mut i: usize = 0;
    while i < t.len()
        invariant
            i <= t@.len(),
            forall|j: int| 0 <= j < i ==> unicode_alphanumeric(#[trigger] t@[j]) || t@[j] == '_',
        decreases t@.len() - i,
    {
        let c = t[i];
        if !(char_is_alphanumeric(c) || c == '_') {
            return false;
        }
        i = i + 1;
    }
    true
}

/// Whether a line is an action line.
pub fn is_action_line(line: &str) -> (b: bool)
    ensures
        b == action_line(line@),
{
    let v = chars_of(line);
    let t = trim_start_vec(&v);
    if upper_starts_with(&t, "ACTION:") {
        return true;
    }
    match vec_split_once(&t, '|') {
        Some((tool, rest)) => {
            let tt = trim_vec(&tool);
            tool_chars_ok(&tt) && tt.len() > 0 && vec_has_char(&rest, '=')
        },
        None => false,
    }
}

fn extract_action_text(line: &Vec<char>) -> (r: Vec<char>)
    ensures
        r@ == action_text(line@),
{
    let t = trim_start_vec(line);
    if upper_starts_with(&t, "ACTION:") {
        match vec_split_once(&t, ':') {
            Some((_, b)) => trim_vec(&b),
            None => Vec::new(),
        }
    } else {
        t
    }
}

fn note_text_vec(line: &Vec<char>) -> (r: Vec<char>)
    ensures
        r@ == note_text(line@),
{
    let t = trim_start_vec(line);
    match vec_split_once(&t, ':') {
        Some((_, b)) => trim_vec(&b),
        None => Vec::new(),
    }
}

/// The notes the model wrote on NOTE lines, in order, empty ones left out.
pub fn extract_notes(text: &str) -> (r: Vec<String>)
    ensures
        views(r@) == notes_of(lines(text@)),
{
    let v = chars_of(text);
    let ls = vec_lines(&v);
    let ghost big_l = lines(text@);
    let mut out: Vec<String> = Vec::new();
    let n = ls.len();
    let mut i: usize = 0;
    while i < n
        invariant
            n == ls@.len(),
            n == big_l.len(),
            big_l == lines(text@),
            forall|k: int| 0 <= k < n ==> #[trigger] ls@[k]@ == big_l[k],
            i <= n,
            views(out@) == notes_of(big_l.take(i as int)),
        decreases n - i,
    {
        let l = &ls[i];
        let ls_str = string_from_chars(l.as_slice());
        proof {
            let t = big_l.take(i + 1);
            assert(t.drop_last() =~= big_l.take(i as int));
            assert(t.last() == l@);
        }
        if is_note_line(ls_str.as_str()) {
            let nt = note_text_vec(l);
            if nt.len() > 0 {
                let ghost before = out@;
                out.push(string_from_chars(nt.as_slice()));
                proof {
                    assert(views(out@) =~= views(before).push(nt@));
                }
            }
        }
        i = i + 1;
    }
    proof {
        assert(big_l.take(n as int) =~= big_l);
    }
    out
}

/// A plan line: it starts with `PLAN:` (any case, after leading whitespace).
pub open spec fn plan_line(line: Seq<char>) -> bool {
    starts_with(uppercase(trim_start(line)), "PLAN:"@)
}

/// The plan an output declares: the text of its last plan line that has
/// one (after the first colon, trimmed); none when it declares none.
pub open spec fn plan_of(ls: Seq<Seq<char>>) -> Option<Seq<char>>
    decreases ls.len(),
{
    if ls.len() == 0 {
        None
    } else if plan_line(ls.last()) && note_text(ls.last()).len() > 0 {
        Some(note_text(ls.last()))
    } else {
        plan_of(ls.drop_last())
    }
}

/// Whether a line is a plan line.
pub fn is_plan_line(line: &str) -> (b: bool)
    ensures
        b == plan_line(line@),
{
    let v = chars_of(line);
    let t = trim_start_vec(&v);
    upper_starts_with(&t, "PLAN:")
}

/// The plan a model output declares, if it declares one: a later plan line
/// replaces an earlier one.
pub fn extract_plan(text: &str) -> (r: Option<String>)
    ensures
        match r {
            Some(p) => plan_of(lines(text@)) == Some(p@),
            None => plan_of(lines(text@)) is None,
        },
{
    let v = chars_of(text);
    let ls = vec_lines(&v);
    let ghost big_l = lines(text@);
    let mut out: Option<String> = None;
    let n = ls.len();
    let mut i: usize = 0;
    while i < n
        invariant
            n == ls@.len(),
            n == big_l.len(),
            big_l == lines(text@),
            forall|k: int| 0 <= k < n ==> #[trigger] ls@[k]@ == big_l[k],
            i <= n,
            match out {
                Some(p) => plan_of(big_l.take(i as int)) == Some(p@),
                None => plan_of(big_l.take(i as int)) is None,
            },
        decreases n - i,
    {
        let l = &ls[i];
        let ls_str = string_from_chars(l.as_slice());
        proof {
            let t = big_l.take(i + 1);
            assert(t.drop_last() =~= big_l.take(i as int));
            assert(t.last() == l@);
        }
        if is_plan_line(ls_str.as_str()) {
            let pt = note_text_vec(l);
            if pt.len() > 0 {
                out = Some(string_from_chars(pt.as_slice()));
            }
        }
        i = i + 1;
    }
    proof {
        assert(big_l.take(n as int) =~= big_l);
    }
    out
}

/// An integer value when the text reads as one, a string value otherwise.
fn parse_value(v: &Vec<char>) -> (r: JsonValue)
    ensures
        r@ == value_of(v@),
{
    match parse_i64_vec(v) {
        Some(n) => JsonValue::Int(n as i128),
        None => JsonValue::Str(string_from_chars(v.as_slice())),
    }
}

/// The text form of a value.
pub fn value_text_of(v: &JsonValue) -> (r: String)
    ensures
        r@ == value_text(v@),
{
    match v {
        JsonValue::Int(n) => i128_to_string(*n),
        JsonValue::Float(s) => copy_str(s.as_str()),
        JsonValue::Bool(b) => if *b {
            copy_str("true")
        } else {
            copy_str("false")
        },
        _ => render_json(v),
    }
}

/// The member `key`, when present and not a string, becomes its text.
fn stringify_member(m: &mut Vec<(String, JsonValue)>, key: &str)
    requires
        members_wf(old(m)@),
    ensures
        members_wf(final(m)@),
        members_map(final(m)@) == stringify_param(members_map(old(m)@), key@),
{
    let text: Option<String> = match members_get(m, key) {
        Some(v) => match v {
            JsonValue::Str(_) => None,
            _ => Some(value_text_of(v)),
        },
        None => None,
    };
    match text {
        Some(t) => {
            members_insert(m, copy_str(key), JsonValue::Str(t));
        },
        None => {},
    }
}

/// Brings argument names and types to what the game server expects.
fn normalize_args(tool: &str, m: &mut Vec<(String, JsonValue)>)
    requires
        members_wf(old(m)@),
    ensures
        members_wf(final(m)@),
        members_map(final(m)@) == normalized_args(tool@, members_map(old(m)@)),
{
    match members_remove(m, "index") {
        Some(v) => {
            let k = index_param_of(tool);
            members_insert(m, k, v);
        },
        None => {},
    }
    stringify_member(m, "target");
    let slot: Option<i64> = match members_get(m, "slot") {
        Some(v) => match v {
            JsonValue::Str(s) => {
                let sv = chars_of(s.as_str());
                parse_i64_vec(&sv)
            },
            _ => None,
        },
        None => None,
    };
    match slot {
        Some(n) => {
            members_insert(m, copy_str("slot"), JsonValue::Int(n as i128));
        },
        None => {},
    }
    stringify_member(m, "option");
    stringify_member(m, "tool");
}

/// Reads one action line.
pub(crate) fn parse_single_action(line: &str) -> (r: Result<ParsedAction, ActionParseError>)
    ensures
        match r {
            Ok(a) => single_action(line@) matches Ok((t, m)) && a.tool@ == t && args_denote(
                a.args,
                m,
            ),
            Err(e) => single_action(line@) == Err::<(Seq<char>, Map<Seq<char>, Json>), _>(e),
        },
{
    let lv = chars_of(line);
    let rest = extract_action_text(&lv);
    let pieces = vec_split(&rest, '|');
    let ghost ps = action_parts(line@);
    let mut parts: Vec<Vec<char>> = Vec::new();
    let mut i: usize = 0;
    while i < pieces.len()
        invariant
            i <= pieces@.len(),
            ps == action_parts(line@),
            rest@ == action_text(line@),
            pieces@.len() == split(rest@, '|').len(),
            forall|k: int| 0 <= k < pieces@.len() ==> #[trigger] pieces@[k]@ == split(rest@, '|')[k],
            parts@.len() == i,
            forall|k: int| 0 <= k < i ==> #[trigger] parts@[k]@ == ps[k],
        decreases pieces@.len() - i,
    {
        parts.push(trim_vec(&pieces[i]));
        i = i + 1;
    }
    assert(parts@.len() == ps.len());
    if parts.len() == 0 || parts[0].len() == 0 {
        return Err(ActionParseError::MissingToolName);
    }
    let paren = chars_of("()");
    let stripped = strip_suffix_all_vec(&parts[0], &paren);
    let tr = trim_vec(&stripped);
    let trs = string_from_chars(tr.as_slice());
    let tool = normalize_tool(trs.as_str());
    let mut members: Vec<(String, JsonValue)> = Vec::new();
    let ghost tail = ps.skip(1);
    let n = parts.len();
    let mut i: usize = 1;
    assert(tail.take(0) =~= Seq::<Seq<char>>::empty());
    assert(members_map(members@) =~= params_of(tail.take(0)));
    while i < n
        invariant
            n == parts@.len(),
            n == ps.len(),
            tail == ps.skip(1),
            forall|k: int| 0 <= k < n ==> #[trigger] parts@[k]@ == ps[k],
            1 <= i <= n,
            members_wf(members@),
            members_map(members@) == params_of(tail.take(i - 1)),
        decreases n - i,
    {
        proof {
            let t = tail.take(i as int);
            assert(t.drop_last() =~= tail.take(i - 1));
            assert(t.last() == ps[i as int]);
        }
        match vec_split_once(&parts[i], '=') {
            Some((k, v)) => {
                let kt = trim_vec(&k);
                let key = trim_start_char_vec(&kt, '_');
                if key.len() > 0 {
                    let vt = trim_vec(&v);
                    let val = parse_value(&vt);
                    members_insert(&mut members, string_from_chars(key.as_slice()), val);
                }
            },
            None => {},
        }
        i = i + 1;
    }
    assert(tail.take(n - 1) =~= tail);
    normalize_args(tool.as_str(), &mut members);
    Ok(ParsedAction { tool, args: JsonValue::Object(members) })
}

/// Once an action line fails to read, later lines change nothing.
proof fn lemma_steps_error_stays(ls: Seq<Seq<char>>, j: int, e: ActionParseError)
    requires
        0 <= j <= ls.len(),
        steps_in(ls.take(j)) == Err::<Seq<(Seq<char>, Map<Seq<char>, Json>)>, ActionParseError>(e),
    ensures
        steps_in(ls) == Err::<Seq<(Seq<char>, Map<Seq<char>, Json>)>, ActionParseError>(e),
    decreases ls.len(),
{
    if j == ls.len() {
        assert(ls.take(j) =~= ls);
    } else {
        let d = ls.drop_last();
        assert(d.take(j) =~= ls.take(j));
        lemma_steps_error_stays(d, j, e);
    }
}

/// Reads every action line of a model output, in order: the steps of a
/// multi-step answer.  The first action line that does not read gives the
/// error; an output without an action line gives `NoActionLine`.
pub fn parse_action(text: &str) -> (r: Result<Vec<ParsedAction>, ActionParseError>)
    ensures
        match r {
            Ok(v) => steps_of(text@) matches Ok(ss) && steps_denote(v@, ss),
            Err(e) => steps_of(text@) == Err::<Seq<(Seq<char>, Map<Seq<char>, Json>)>, ActionParseError>(e),
        },
{
    let v = chars_of(text);
    let ls = vec_lines(&v);
    let ghost big_l = lines(text@);
    let n = ls.len();
    let mut steps: Vec<ParsedAction> = Vec::new();
    let mut i: usize = 0;
    assert(big_l.take(0) =~= Seq::<Seq<char>>::empty());
    while i < n
        invariant
            n == ls@.len(),
            n == big_l.len(),
            big_l == lines(text@),
            forall|k: int| 0 <= k < n ==> #[trigger] ls@[k]@ == big_l[k],
            i <= n,
            steps_in(big_l.take(i as int)) matches Ok(ss) && steps_denote(steps@, ss),
        decreases n - i,
    {
        let ghost before = steps@;
        let ghost ss = steps_in(big_l.take(i as int))->Ok_0;
        let l = string_from_chars(ls[i].as_slice());
        proof {
            assert(big_l.take(i + 1).drop_last() =~= big_l.take(i as int));
            assert(big_l.take(i + 1).last() == big_l[i as int]);
        }
        if is_action_line(l.as_str()) {
            match parse_single_action(l.as_str()) {
                Ok(a) => {
                    steps.push(a);
                    assert forall|k: int| 0 <= k < steps@.len() implies (#[trigger] steps@[k]).tool@
                        == ss.push(single_action(l@)->Ok_0)[k].0 && args_denote(steps@[k].args, ss.push(single_action(l@)->Ok_0)[k].1) by {
                        if k < before.len() {
                            assert(steps@[k] == before[k]);
                        }
                    }
                },
                Err(e) => {
                    proof {
                        lemma_steps_error_stays(big_l, i + 1, e);
                    }
                    return Err(e);
                },
            }
        }
        i = i + 1;
    }
    assert(big_l.take(n as int) =~= big_l);
    if steps.len() == 0 {
        Err(ActionParseError::NoActionLine)
    } else {
        Ok(steps)
    }
}

/// Reads a native tool call: its name and its JSON arguments text.
pub fn parse_tool_call(name: &str, arguments: &str) -> (r: Result<ParsedAction, ActionParseError>)
    ensures
        match r {
            Ok(a) => {
                &&& a.tool@ == tool_name(name@)
                &&& tool_call_args(arguments@) matches Some(m)
                &&& args_denote(a.args, normalized_args(tool_name(name@), m))
            },
            Err(e) => {
                &&& tool_call_args(arguments@) is None
                &&& e matches ActionParseError::InvalidToolArguments(t)
                &&& t@ == arguments@
            },
        },
{
    let tool = normalize_tool(name);
    let av = chars_of(arguments);
    let t = trim_vec(&av);
    let mut members: Vec<(String, JsonValue)> = Vec::new();
    let ghost mut base: Map<Seq<char>, Json> = Map::empty();
    assert(members_map(members@) =~= base);
    if t.len() > 0 {
        match parse_json(arguments) {
            None => {
                return Err(ActionParseError::InvalidToolArguments(copy_str(arguments)));
            },
            Some(v) => {
                match &v {
                    JsonValue::Object(ms) => {
                        proof {
                            lemma_object_view(*ms);
                        }
                        let ghost ks = mkeys(ms@);
                        let ghost vs = mvals(ms@);
                        let mut i: usize = 0;
                        assert(ks.take(0) =~= Seq::<Seq<char>>::empty());
                        while i < ms.len()
                            invariant
                                ks == mkeys(ms@),
                                vs == mvals(ms@),
                                i <= ms@.len(),
                                members_wf(members@),
                                members_map(members@) == fold_members(ks.take(i as int), vs),
                            decreases ms@.len() - i,
                        {
                            proof {
                                let tk = ks.take(i + 1);
                                assert(tk.drop_last() =~= ks.take(i as int));
                                assert(tk.last() == ms@[i as int].0@);
                                assert(vs[i as int] == ms@[i as int].1@);
                            }
                            members_insert(
                                &mut members,
                                copy_str(ms[i].0.as_str()),
                                ms[i].1.copy(),
                            );
                            i = i + 1;
                        }
                        proof {
                            assert(ks.take(ms@.len() as int) =~= ks);
                            base = fold_members(ks, vs);
                        }
                    },
                    _ => {},
                }
            },
        }
    }
    normalize_args(tool.as_str(), &mut members);
    Ok(ParsedAction { tool, args: JsonValue::Object(members) })
}

} // verus!
