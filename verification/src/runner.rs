//! The decisions of the interactive agent, apart from the input and output
//! they wait on: what the player's words mean, what a finished model answer
//! leads to (a lookup, a request for autonomous mode, a veto, an action),
//! what an executed action and a new game state lead to, and the mechanical
//! moves made without asking the model.
//!
//! The kernel never enters autonomous mode on its own: only the player's
//! consent does; and outside autonomous mode no game action is executed.
use vstd::prelude::*;

use crate::app::{AppState, ChatMsg, LastExec, Mode, MsgRole};
use crate::json::{as_str, field, json_render, jstr, opt_as_str, field_ref, render_json, Json, JsonValue};
use crate::llm::{ChatMessage, ToolCall};
use crate::lookup::{perform_lookup, smart_result, KnowledgeBase};
use crate::model::{GameState, StateType};
use crate::storage::TurnRecord;
use crate::parse::{
    action_line, args_denote, is_action_line, is_note_line, note_line, parse_single_action, single_action,
    parse_tool_call, tool_call_args, tool_name, normalized_args, ParsedAction,
};
use crate::text::{
    chars_of, contains, copy_str, join, join_strings, lines, lowercase, push_str, to_lowercase,
    trim, trim_str, vec_contains, vec_lines, views,
};

verus! {

// ---------------------------------------------------------------------------
// The player's words
// ---------------------------------------------------------------------------

/// What the player wants.
#[derive(Debug, Clone)]
pub enum UserIntent {
    /// Another suggestion, please.
    Reject,
    /// Stop what you are doing and leave autonomous mode.
    Interrupt,
    Quit,
    /// Anything else: for the model to understand.
    Chat(String),
}

/// What the player wants, by its words.
pub enum Intent {
    Reject,
    Interrupt,
    Quit,
    Chat(Seq<char>),
}

pub open spec fn intent_view(i: UserIntent) -> Intent {
    match i {
        UserIntent::Reject => Intent::Reject,
        UserIntent::Interrupt => Intent::Interrupt,
        UserIntent::Quit => Intent::Quit,
        UserIntent::Chat(s) => Intent::Chat(s@),
    }
}

/// The intent of a line the player typed: keywords only, no model call.
pub open spec fn intent_of(text: Seq<char>) -> Intent {
    let lower = lowercase(text);
    let t = trim(text);
    if contains(t, "退出"@) || lower == "quit"@ || lower == "exit"@ {
        Intent::Quit
    } else if t == "打断"@ || t == "停"@ || lower == "stop"@ || lower == "interrupt"@ {
        Intent::Interrupt
    } else if t == "不"@ || t == "换一个"@ || t == "不要"@ || t == "拒绝"@ || lower == "no"@
        || lower == "n"@ || lower == "reject"@ {
        Intent::Reject
    } else {
        Intent::Chat(text)
    }
}

fn is(s: &String, lit: &str) -> (r: bool)
    ensures
        r == (s@ == lit@),
{
    crate::json::str_eq(s.as_str(), lit)
}

/// Classifies a line the player typed.
pub fn parse_intent(text: &str) -> (r: UserIntent)
    ensures
        intent_view(r) == intent_of(text@),
{
    let lower = to_lowercase(text);
    let trimmed = trim_str(text);
    let tv = chars_of(trimmed.as_str());
    let quit_word = chars_of("退出");
    if vec_contains(&tv, &quit_word) || is(&lower, "quit") || is(&lower, "exit") {
        return UserIntent::Quit;
    }
    if is(&trimmed, "打断") || is(&trimmed, "停") || is(&lower, "stop") || is(&lower, "interrupt") {
        return UserIntent::Interrupt;
    }
    if is(&trimmed, "不") || is(&trimmed, "换一个") || is(&trimmed, "不要") || is(&trimmed, "拒绝")
        || is(&lower, "no") || is(&lower, "n") || is(&lower, "reject") {
        return UserIntent::Reject;
    }
    UserIntent::Chat(copy_str(text))
}

/// The player's answer to a request for autonomous mode: `Some(true)` for a
/// yes, `Some(false)` for a no, `None` for anything else.
pub open spec fn auto_reply_of(text: Seq<char>) -> Option<bool> {
    let l = lowercase(trim(text));
    if l == "y"@ || l == "yes"@ || l == "好"@ || l == "同意"@ || l == "可以"@ || l == "确定"@ || l
        == "开"@ || l == "开吧"@ {
        Some(true)
    } else if l == "n"@ || l == "no"@ || l == "不"@ || l == "不要"@ || l == "拒绝"@ || l == "取消"@
        || l == "不行"@ {
        Some(false)
    } else {
        None
    }
}

/// Words that take back a request for autonomous mode.
pub open spec fn is_stop_word(text: Seq<char>) -> bool {
    let l = lowercase(trim(text));
    l == "停"@ || l == "stop"@ || l == "interrupt"@
}

fn lower_trimmed(text: &str) -> (r: String)
    ensures
        r@ == lowercase(trim(text@)),
{
    let t = trim_str(text);
    to_lowercase(t.as_str())
}

/// Reads a yes or a no to a request for autonomous mode.
pub fn auto_reply(text: &str) -> (r: Option<bool>)
    ensures
        r == auto_reply_of(text@),
{
    let l = lower_trimmed(text);
    if is(&l, "y") || is(&l, "yes") || is(&l, "好") || is(&l, "同意") || is(&l, "可以") || is(&l, "确定")
        || is(&l, "开") || is(&l, "开吧") {
        Some(true)
    } else if is(&l, "n") || is(&l, "no") || is(&l, "不") || is(&l, "不要") || is(&l, "拒绝") || is(
        &l,
        "取消",
    ) || is(&l, "不行") {
        Some(false)
    } else {
        None
    }
}

fn stop_word(text: &str) -> (r: bool)
    ensures
        r == is_stop_word(text@),
{
    let l = lower_trimmed(text);
    is(&l, "停") || is(&l, "stop") || is(&l, "interrupt")
}

// ---------------------------------------------------------------------------
// Mechanical moves
// ---------------------------------------------------------------------------

/// The largest index among the reward items that have one (0 when none has).
pub open spec fn max_reward_index(items: Seq<crate::model::RewardItem>) -> u32
    decreases items.len(),
{
    if items.len() == 0 {
        0
    } else {
        let m = max_reward_index(items.drop_last());
        match items.last().index {
            Some(i) => if i > m {
                i
            } else {
                m
            },
            None => m,
        }
    }
}

/// The moves made in autonomous mode without asking the model: claim the
/// rewards right to left and then proceed; confirm a card selection that is
/// ready; take the only relic of a treasure outside bidding.
pub open spec fn reflex_of(gs: GameState) -> Option<(Seq<char>, Json)> {
    match gs.state_type {
        StateType::Rewards => match gs.rewards {
            Some(r) => if r.items@.len() > 0 {
                Some(
                    (
                        "rewards_claim"@,
                        Json::Object(
                            seq!["reward_index"@],
                            seq![Json::Int(max_reward_index(r.items@) as int)],
                        ),
                    ),
                )
            } else if crate::app::flag_or(r.can_proceed, false) {
                Some(("proceed_to_map"@, Json::Object(Seq::empty(), Seq::empty())))
            } else {
                None
            },
            None => None,
        },
        StateType::CardSelect => match gs.card_select {
            Some(cs) => if crate::app::flag_or(cs.can_confirm, false) && (crate::app::flag_or(
                cs.preview_showing,
                false,
            ) || cs.cards@.len() == 0) {
                Some(("deck_confirm_selection"@, Json::Object(Seq::empty(), Seq::empty())))
            } else {
                None
            },
            None => None,
        },
        StateType::Treasure => match gs.treasure {
            Some(t) => if t.relics@.len() == 1 && !crate::app::flag_or(t.is_bidding_phase, false) {
                Some(
                    (
                        "treasure_claim_relic"@,
                        Json::Object(
                            seq!["relic_index"@],
                            seq![
                                Json::Int(
                                    match t.relics@[0].index {
                                        Some(i) => i as int,
                                        None => 0,
                                    },
                                ),
                            ],
                        ),
                    ),
                )
            } else {
                None
            },
            None => None,
        },
        _ => None,
    }
}

/// The highest index among the reward items is at least each item's index,
/// and it is one of them (0 when no item has an index).
proof fn lemma_max_reward_index(items: Seq<crate::model::RewardItem>)
    ensures
        forall|i: int|
            0 <= i < items.len() && (#[trigger] items[i]).index is Some ==> items[i].index->0
                <= max_reward_index(items),
        max_reward_index(items) == 0 || exists|i: int| 0 <= i < items.len() && (#[trigger] items[i]).index
            == Some(max_reward_index(items)),
    decreases items.len(),
{
    if items.len() > 0 {
        let p = items.drop_last();
        lemma_max_reward_index(p);
        assert forall|i: int|
            0 <= i < items.len() && (#[trigger] items[i]).index is Some implies items[i].index->0
                <= max_reward_index(items) by {
            if i < p.len() {
                assert(items[i] == p[i]);
            }
        }
        if max_reward_index(items) != 0 && max_reward_index(items) == max_reward_index(p) {
            let j = choose|j: int| 0 <= j < p.len() && (#[trigger] p[j]).index == Some(max_reward_index(p));
            assert(items[j] == p[j]);
        }
    }
}

/// On the rewards screen the mechanical move claims the reward with the
/// highest index (the rightmost, so the others keep their indices); with no
/// rewards left it proceeds to the map when that is allowed, and otherwise
/// there is none.
pub proof fn lemma_reflex_rewards(gs: GameState)
    requires
        gs.state_type == StateType::Rewards,
    ensures
        gs.rewards is None ==> reflex_of(gs) is None,
        ({
            let items = gs.rewards->0.items@;
            gs.rewards is Some && items.len() > 0 ==> exists|m: u32|
                #[trigger] reflex_of(gs) == Some(
                    ("rewards_claim"@, Json::Object(seq!["reward_index"@], seq![Json::Int(m as int)])),
                ) && (forall|i: int|
                    0 <= i < items.len() && (#[trigger] items[i]).index is Some ==> items[i].index->0
                        <= m) && (m == 0 || exists|i: int|
                    0 <= i < items.len() && (#[trigger] items[i]).index == Some(m))
        }),
        ({
            let r = gs.rewards->0;
            gs.rewards is Some && r.items@.len() == 0 ==> (r.can_proceed == Some(true) ==> reflex_of(gs)
                == Some(("proceed_to_map"@, Json::Object(Seq::empty(), Seq::empty())))) && (
            r.can_proceed != Some(true) ==> reflex_of(gs) is None)
        }),
{
    match gs.rewards {
        Some(r) => {
            lemma_max_reward_index(r.items@);
            if r.items@.len() > 0 {
                let m = max_reward_index(r.items@);
                assert(reflex_of(gs) == Some(
                    ("rewards_claim"@, Json::Object(seq!["reward_index"@], seq![Json::Int(m as int)])),
                ));
            }
        },
        None => {},
    }
}

/// On a card-selection screen the only mechanical move is to confirm, and
/// it is made exactly when the selection can be confirmed and either its
/// preview is showing or no cards are left to choose from.  A selection that
/// still shows cards without a preview is left to the model.
pub proof fn lemma_reflex_card_select(gs: GameState)
    requires
        gs.state_type == StateType::CardSelect,
    ensures
        reflex_of(gs) is Some ==> reflex_of(gs) == Some(
            ("deck_confirm_selection"@, Json::Object(Seq::empty(), Seq::empty())),
        ),
        ({
            let cs = gs.card_select->0;
            (reflex_of(gs) is Some) <==> (gs.card_select is Some && cs.can_confirm == Some(true) && (
            cs.preview_showing == Some(true) || cs.cards@.len() == 0))
        }),
{
}

/// At a treasure chest the mechanical move takes the relic when there is
/// exactly one and no bidding is under way, by its index (0 when it has
/// none); otherwise there is none.
pub proof fn lemma_reflex_treasure(gs: GameState)
    requires
        gs.state_type == StateType::Treasure,
    ensures
        ({
            let t = gs.treasure->0;
            let lone = gs.treasure is Some && t.relics@.len() == 1 && t.is_bidding_phase != Some(true);
            &&& (reflex_of(gs) is Some) <==> lone
            &&& lone ==> reflex_of(gs) == Some(
                (
                    "treasure_claim_relic"@,
                    Json::Object(
                        seq!["relic_index"@],
                        seq![
                            Json::Int(
                                if t.relics@[0].index is Some {
                                    t.relics@[0].index->0 as int
                                } else {
                                    0
                                },
                            ),
                        ],
                    ),
                ),
            )
        }),
{
}

/// No other screen has a mechanical move.
pub proof fn lemma_reflex_elsewhere(gs: GameState)
    requires
        gs.state_type != StateType::Rewards,
        gs.state_type != StateType::CardSelect,
        gs.state_type != StateType::Treasure,
    ensures
        reflex_of(gs) is None,
{
}

fn one_member(key: &str, v: JsonValue) -> (r: JsonValue)
    ensures
        r@ == Json::Object(seq![key@], seq![v@]),
{
    let ghost vv = v@;
    let r = JsonValue::Object(vec![(copy_str(key), v)]);
    assert(r@->Object_0 =~= seq![key@]);
    assert(r@->Object_1 =~= seq![vv]);
    r
}

fn empty_object() -> (r: JsonValue)
    ensures
        r@ == Json::Object(Seq::empty(), Seq::empty()),
{
    let r = JsonValue::Object(Vec::new());
    assert(r@->Object_0 =~= Seq::<Seq<char>>::empty());
    assert(r@->Object_1 =~= Seq::<Json>::empty());
    r
}

/// A mechanical move for the state, if there is one.
pub fn try_reflex_action(gs: &GameState) -> (r: Option<(String, JsonValue)>)
    ensures
        match r {
            Some((t, a)) => reflex_of(*gs) == Some((t@, a@)),
            None => reflex_of(*gs) is None,
        },
{
    match gs.state_type {
        StateType::Rewards => match &gs.rewards {
            Some(r) => {
                if r.items.len() > 0 {
                    let mut m: u32 = 0;
                    let mut i: usize = 0;
                    while i < r.items.len()
                        invariant
                            i <= r.items@.len(),
                            m == max_reward_index(r.items@.take(i as int)),
                        decreases r.items@.len() - i,
                    {
                        proof {
                            let t = r.items@.take(i + 1);
                            assert(t.drop_last() =~= r.items@.take(i as int));
                        }
                        match r.items[i].index {
                            Some(x) => if x > m {
                                m = x;
                            },
                            None => {},
                        }
                        i = i + 1;
                    }
                    assert(r.items@.take(r.items@.len() as int) =~= r.items@);
                    let args = one_member("reward_index", JsonValue::Int(m as i128));
                    return Some((copy_str("rewards_claim"), args));
                }
                let can = match r.can_proceed {
                    Some(b) => b,
                    None => false,
                };
                if can {
                    Some((copy_str("proceed_to_map"), empty_object()))
                } else {
                    None
                }
            },
            None => None,
        },
        StateType::CardSelect => match &gs.card_select {
            Some(cs) => {
                let confirm = match cs.can_confirm {
                    Some(b) => b,
                    None => false,
                };
                let preview = match cs.preview_showing {
                    Some(b) => b,
                    None => false,
                };
                if confirm && (preview || cs.cards.len() == 0) {
                    Some((copy_str("deck_confirm_selection"), empty_object()))
                } else {
                    None
                }
            },
            None => None,
        },
        StateType::Treasure => match &gs.treasure {
            Some(t) => {
                let bidding = match t.is_bidding_phase {
                    Some(b) => b,
                    None => false,
                };
                if t.relics.len() == 1 && !bidding {
                    let idx: u32 = match t.relics[0].index {
                        Some(i) => i,
                        None => 0,
                    };
                    let args = one_member("relic_index", JsonValue::Int(idx as i128));
                    Some((copy_str("treasure_claim_relic"), args))
                } else {
                    None
                }
            },
            None => None,
        },
        _ => None,
    }
}

// ---------------------------------------------------------------------------
// The autonomous chain
// ---------------------------------------------------------------------------

/// Whether a message answers a tool call.
pub open spec fn is_tool_msg(m: ChatMessage) -> bool {
    m.role@ == "tool"@
}

/// How many leading tool messages there are.
pub open spec fn leading_tools(ms: Seq<ChatMessage>) -> nat
    decreases ms.len(),
{
    if ms.len() > 0 && is_tool_msg(ms[0]) {
        1 + leading_tools(ms.drop_first())
    } else {
        0
    }
}

/// The chain kept when it grows long: past 60 messages the last 40 are
/// kept, without the tool messages at their front (a tool message must
/// follow the assistant message that made the call).
pub open spec fn trimmed_chain(ms: Seq<ChatMessage>) -> Seq<ChatMessage> {
    if ms.len() <= 60 {
        ms
    } else {
        let kept = ms.skip(ms.len() - 40);
        kept.skip(leading_tools(kept) as int)
    }
}

proof fn lemma_leading_tools(ms: Seq<ChatMessage>, k: int)
    requires
        0 <= k <= ms.len(),
        forall|j: int| 0 <= j < k ==> is_tool_msg(#[trigger] ms[j]),
        k == ms.len() || !is_tool_msg(ms[k]),
    ensures
        leading_tools(ms) == k,
    decreases k,
{
    if k > 0 {
        let t = ms.drop_first();
        assert forall|j: int| 0 <= j < k - 1 implies is_tool_msg(#[trigger] t[j]) by {
            assert(t[j] == ms[j + 1]);
        }
        if k < ms.len() {
            assert(t[k - 1] == ms[k]);
        }
        lemma_leading_tools(t, k - 1);
    }
}

proof fn lemma_leading_tools_bound(ms: Seq<ChatMessage>)
    ensures
        leading_tools(ms) <= ms.len(),
        leading_tools(ms) < ms.len() ==> !is_tool_msg(ms[leading_tools(ms) as int]),
    decreases ms.len(),
{
    if ms.len() > 0 && is_tool_msg(ms[0]) {
        let t = ms.drop_first();
        lemma_leading_tools_bound(t);
        if leading_tools(t) < t.len() {
            assert(t[leading_tools(t) as int] == ms[leading_tools(ms) as int]);
        }
    }
}

/// A trimmed chain is a part of the end of the chain, holds at most 40
/// messages when it was cut, and does not start with a tool message.
pub proof fn lemma_trimmed_chain(ms: Seq<ChatMessage>)
    ensures
        ({
            let t = trimmed_chain(ms);
            &&& t.len() <= ms.len()
            &&& t == ms.skip(ms.len() - t.len())
            &&& ms.len() > 60 ==> t.len() <= 40
            &&& ms.len() > 60 && t.len() > 0 ==> !is_tool_msg(t[0])
        }),
{
    if ms.len() > 60 {
        let kept = ms.skip(ms.len() - 40);
        lemma_leading_tools_bound(kept);
        let t = kept.skip(leading_tools(kept) as int);
        assert(t =~= ms.skip(ms.len() - t.len()));
    } else {
        assert(ms.skip(0) =~= ms);
    }
}

fn role_is_tool(m: &ChatMessage) -> (r: bool)
    ensures
        r == is_tool_msg(*m),
{
    is(&m.role, "tool")
}

impl AppState {
    /// Keeps the autonomous chain short (see `trimmed_chain`).
    pub fn trim_auto_chain(&mut self)
        ensures
            final(self).auto_messages@ == trimmed_chain(old(self).auto_messages@),
            unchanged_but(*old(self), *final(self), false, false, false, true, false, false),
            final(self).wf() == old(self).wf(),
    {
        let n = self.auto_messages.len();
        if n <= 60 {
            return;
        }
        let ghost ms = self.auto_messages@;
        let keep_from = n - 40;
        let mut k: usize = 0;
        assert(ms.skip(0) =~= ms);
        while k < keep_from
            invariant
                n == ms.len(),
                keep_from == n - 40,
                k <= keep_from,
                self.auto_messages@ == ms.skip(k as int),
                unchanged_but(*old(self), *self, false, false, false, true, false, false),
            decreases keep_from - k,
        {
            self.auto_messages.remove(0);
            assert(ms.skip(k as int).remove(0) =~= ms.skip(k + 1));
            k = k + 1;
        }
        let ghost kept = ms.skip(keep_from as int);
        let mut d: usize = 0;
        assert(kept.skip(0) =~= kept);
        while self.auto_messages.len() > 0 && role_is_tool(&self.auto_messages[0])
            invariant
                kept.len() == 40,
                d <= kept.len(),
                self.auto_messages@ == kept.skip(d as int),
                forall|j: int| 0 <= j < d ==> is_tool_msg(#[trigger] kept[j]),
                unchanged_but(*old(self), *self, false, false, false, true, false, false),
            decreases kept.len() - d,
        {
            assert(kept[d as int] == self.auto_messages@[0]);
            self.auto_messages.remove(0);
            assert(kept.skip(d as int).remove(0) =~= kept.skip(d + 1));
            d = d + 1;
        }
        proof {
            if d < kept.len() {
                assert(kept[d as int] == self.auto_messages@[0]);
            }
            lemma_leading_tools(kept, d as int);
        }
    }
}


// ---------------------------------------------------------------------------
// Knowledge lookups requested by the model
// ---------------------------------------------------------------------------

/// What a lookup adds to the lookup record shown to the model.
pub open spec fn lookup_entry(query: Seq<char>, used: Seq<char>, result: Seq<char>) -> Seq<char> {
    if result.len() == 0 {
        "[查询 "@ + query + "]: 知识库无记录\n"@
    } else {
        "[查询 "@ + query + " → "@ + used + "]:\n"@ + result + "\n"@
    }
}

// ---------------------------------------------------------------------------
// Reading a finished answer
// ---------------------------------------------------------------------------

/// An action by its tool and its arguments.
pub struct ActionV {
    pub tool: Seq<char>,
    pub args: Map<Seq<char>, Json>,
}

pub open spec fn action_view(a: ParsedAction) -> ActionV {
    ActionV {
        tool: a.tool@,
        args: match a.args {
            JsonValue::Object(m) => crate::json::members_map(m@),
            _ => Map::empty(),
        },
    }
}

/// An action whose arguments are an object with distinct member names.
pub open spec fn action_wf(a: ParsedAction) -> bool {
    a.args is Object && crate::json::members_wf(a.args->Object_0@)
}

pub open spec fn actions_view(v: Seq<ParsedAction>) -> Seq<ActionV> {
    v.map_values(|a: ParsedAction| action_view(a))
}

/// The actions of the native tool calls whose arguments are JSON.
pub open spec fn call_actions(calls: Seq<ToolCall>) -> Seq<ActionV>
    decreases calls.len(),
{
    if calls.len() == 0 {
        Seq::empty()
    } else {
        let prev = call_actions(calls.drop_last());
        let c = calls.last();
        match tool_call_args(c.arguments@) {
            Some(m) => prev.push(
                ActionV { tool: tool_name(c.name@), args: normalized_args(tool_name(c.name@), m) },
            ),
            None => prev,
        }
    }
}

/// The error shown for each native tool call whose arguments are not JSON.
pub open spec fn call_errors(calls: Seq<ToolCall>) -> Seq<Seq<char>>
    decreases calls.len(),
{
    if calls.len() == 0 {
        Seq::empty()
    } else {
        let prev = call_errors(calls.drop_last());
        let c = calls.last();
        match tool_call_args(c.arguments@) {
            Some(_) => prev,
            None => prev.push(
                "工具调用解析失败: "@ + "invalid tool arguments JSON: "@ + c.arguments@,
            ),
        }
    }
}

/// The actions of the action lines of a text that name a tool.
pub open spec fn text_actions(ls: Seq<Seq<char>>) -> Seq<ActionV>
    decreases ls.len(),
{
    if ls.len() == 0 {
        Seq::empty()
    } else {
        let prev = text_actions(ls.drop_last());
        let l = ls.last();
        if action_line(l) {
            match single_action(l) {
                Ok((t, m)) => if t.len() > 0 {
                    prev.push(ActionV { tool: t, args: m })
                } else {
                    prev
                },
                Err(_) => prev,
            }
        } else {
            prev
        }
    }
}

/// The actions of an answer: its native tool calls, or, when none of them
/// can be read, its text action lines.
pub open spec fn answer_actions(calls: Seq<ToolCall>, text: Seq<char>) -> Seq<ActionV> {
    if call_actions(calls).len() > 0 {
        call_actions(calls)
    } else {
        text_actions(lines(text))
    }
}

/// The lines of an answer that are neither action nor note lines.
pub open spec fn talk_lines(ls: Seq<Seq<char>>) -> Seq<Seq<char>>
    decreases ls.len(),
{
    if ls.len() == 0 {
        Seq::empty()
    } else {
        let prev = talk_lines(ls.drop_last());
        let l = ls.last();
        if !action_line(l) && !note_line(l) {
            prev.push(l)
        } else {
            prev
        }
    }
}

/// The text shown for an answer: its talk lines, trimmed.
pub open spec fn answer_of(text: Seq<char>) -> Seq<char> {
    trim(join(talk_lines(lines(text)), "\n"@))
}

fn push_action(out: &mut Vec<ParsedAction>, a: ParsedAction)
    ensures
        actions_view(final(out)@) == actions_view(old(out)@).push(action_view(a)),
        final(out)@ == old(out)@.push(a),
{
    let ghost before = out@;
    let ghost av = action_view(a);
    out.push(a);
    assert(actions_view(out@) =~= actions_view(before).push(av));
}

fn push_text(out: &mut Vec<String>, s: String)
    ensures
        views(final(out)@) == views(old(out)@).push(s@),
{
    let ghost before = out@;
    out.push(s);
    assert(views(out@) =~= views(before).push(s@));
}

/// Reads the actions of a finished answer, and the errors of the tool calls
/// that could not be read.
pub fn collect_actions(tool_calls: &Vec<ToolCall>, full_text: &str) -> (r: (
    Vec<ParsedAction>,
    Vec<String>,
))
    ensures
        actions_view(r.0@) == answer_actions(tool_calls@, full_text@),
        views(r.1@) == call_errors(tool_calls@),
        forall|i: int| 0 <= i < r.0@.len() ==> action_wf(#[trigger] r.0@[i]),
{
    let mut actions: Vec<ParsedAction> = Vec::new();
    let mut errors: Vec<String> = Vec::new();
    let mut i: usize = 0;
    assert(actions_view(actions@) =~= Seq::<ActionV>::empty());
    assert(views(errors@) =~= Seq::<Seq<char>>::empty());
    while i < tool_calls.len()
        invariant
            i <= tool_calls@.len(),
            actions_view(actions@) == call_actions(tool_calls@.take(i as int)),
            views(errors@) == call_errors(tool_calls@.take(i as int)),
            forall|q: int| 0 <= q < actions@.len() ==> action_wf(#[trigger] actions@[q]),
        decreases tool_calls@.len() - i,
    {
        let tc = &tool_calls[i];
        proof {
            let t = tool_calls@.take(i + 1);
            assert(t.drop_last() =~= tool_calls@.take(i as int));
            assert(t.last() == *tc);
        }
        match parse_tool_call(tc.name.as_str(), tc.arguments.as_str()) {
            Ok(a) => {
                push_action(&mut actions, a);
            },
            Err(e) => {
                let mut msg = copy_str("工具调用解析失败: ");
                let em = e.message();
                push_str(&mut msg, em.as_str());
                assert(msg@ =~= "工具调用解析失败: "@ + "invalid tool arguments JSON: "@ + tc.arguments@);
                push_text(&mut errors, msg);
            },
        }
        i = i + 1;
    }
    assert(tool_calls@.take(tool_calls@.len() as int) =~= tool_calls@);
    if actions.len() == 0 {
        let v = chars_of(full_text);
        let ls = vec_lines(&v);
        let ghost big = lines(full_text@);
        let mut k: usize = 0;
        assert(actions_view(actions@) =~= text_actions(big.take(0)));
        while k < ls.len()
            invariant
                big == lines(full_text@),
                ls@.len() == big.len(),
                forall|j: int| 0 <= j < ls@.len() ==> #[trigger] ls@[j]@ == big[j],
                k <= ls@.len(),
                actions_view(actions@) == text_actions(big.take(k as int)),
                forall|q: int| 0 <= q < actions@.len() ==> action_wf(#[trigger] actions@[q]),
            decreases ls@.len() - k,
        {
            proof {
                let t = big.take(k + 1);
                assert(t.drop_last() =~= big.take(k as int));
                assert(t.last() == ls@[k as int]@);
            }
            let l = crate::text::string_from_chars(ls[k].as_slice());
            if is_action_line(l.as_str()) {
                match parse_single_action(l.as_str()) {
                    Ok(a) => if !a.tool.as_str().is_empty() {
                        push_action(&mut actions, a);
                    },
                    Err(_) => {},
                }
            }
            k = k + 1;
        }
        assert(big.take(ls@.len() as int) =~= big);
    }
    (actions, errors)
}

/// The text of an answer without its action and note lines, trimmed.
pub fn answer_text(full_text: &str) -> (r: String)
    ensures
        r@ == answer_of(full_text@),
{
    let v = chars_of(full_text);
    let ls = vec_lines(&v);
    let ghost big = lines(full_text@);
    let mut kept: Vec<String> = Vec::new();
    let mut k: usize = 0;
    assert(views(kept@) =~= talk_lines(big.take(0)));
    while k < ls.len()
        invariant
            big == lines(full_text@),
            ls@.len() == big.len(),
            forall|j: int| 0 <= j < ls@.len() ==> #[trigger] ls@[j]@ == big[j],
            k <= ls@.len(),
            views(kept@) == talk_lines(big.take(k as int)),
        decreases ls@.len() - k,
    {
        proof {
            let t = big.take(k + 1);
            assert(t.drop_last() =~= big.take(k as int));
            assert(t.last() == ls@[k as int]@);
        }
        let l = crate::text::string_from_chars(ls[k].as_slice());
        if !is_action_line(l.as_str()) && !is_note_line(l.as_str()) {
            push_text(&mut kept, l);
        }
        k = k + 1;
    }
    assert(big.take(ls@.len() as int) =~= big);
    let j = join_strings(&kept, "\n");
    trim_str(j.as_str())
}


// ---------------------------------------------------------------------------
// What to do next
// ---------------------------------------------------------------------------

/// What the agent has to do after a decision, outside the library.
#[derive(Debug)]
pub enum Next {
    /// Nothing; wait for the player.
    Idle,
    /// Wait until the game state is stable, then report it with `on_state_ready`.
    Stabilize,
    /// Send this action to the game, then report with `on_exec_done`.
    Exec { tool: String, args: JsonValue },
    /// Stream the autonomous chain to the model again.
    ContinueAuto,
    /// Read the game state again (falling back to the one decided on) and
    /// start a decision with this message.
    Refetch { user_msg: String },
    /// Start a decision on the state just read, with no message.
    DecideOn,
}

pub enum NextV {
    Idle,
    Stabilize,
    Exec(Seq<char>, Json),
    ContinueAuto,
    Refetch(Seq<char>),
    DecideOn,
}

pub open spec fn next_view(n: Next) -> NextV {
    match n {
        Next::Idle => NextV::Idle,
        Next::Stabilize => NextV::Stabilize,
        Next::Exec { tool, args } => NextV::Exec(tool@, args@),
        Next::ContinueAuto => NextV::ContinueAuto,
        Next::Refetch { user_msg } => NextV::Refetch(user_msg@),
        Next::DecideOn => NextV::DecideOn,
    }
}

/// The fields of the agent, by group, that an operation may change: the
/// conversation shown, the streams, the lookups, the autonomous chain, the
/// control of the agent, and what it knows of the game and the session.
pub open spec fn unchanged_but(
    a: AppState,
    b: AppState,
    chat: bool,
    streams: bool,
    lookup: bool,
    chain: bool,
    control: bool,
    state: bool,
) -> bool {
    &&& (!chat ==> a.chat == b.chat && a.chat_scroll == b.chat_scroll)
    &&& (!streams ==> a.streaming_text == b.streaming_text && a.reasoning_text == b.reasoning_text
        && a.full_text == b.full_text)
    &&& (!lookup ==> a.lookup_rounds == b.lookup_rounds && a.lookup_context == b.lookup_context)
    &&& (!chain ==> a.auto_messages == b.auto_messages)
    &&& (!control ==> {
        &&& a.mode == b.mode
        &&& a.auto_mode == b.auto_mode
        &&& a.task == b.task
        &&& a.pending_auto_start == b.pending_auto_start
        &&& a.queued_auto_reply == b.queued_auto_reply
        &&& a.no_action_streak == b.no_action_streak
        &&& a.unknown_streak == b.unknown_streak
        &&& a.plan == b.plan
        &&& a.recent_actions == b.recent_actions
        &&& a.progress == b.progress
        &&& a.finished == b.finished
        &&& a.pending_actions == b.pending_actions
        &&& a.last_exec == b.last_exec
    })
    &&& (!state ==> {
        &&& a.game_state == b.game_state
        &&& a.last_state_json == b.last_state_json
        &&& a.decision_state_json == b.decision_state_json
        &&& a.current_turn == b.current_turn
        &&& a.total_input == b.total_input
        &&& a.total_output == b.total_output
        &&& a.last_usage == b.last_usage
        &&& a.pending_user_input == b.pending_user_input
        &&& a.history == b.history
        &&& a.pending_action == b.pending_action
    })
    &&& a.show_thinking == b.show_thinking
    &&& a.zh == b.zh
    &&& a.execute_actions == b.execute_actions
    &&& a.session_id == b.session_id
    &&& a.input == b.input
    &&& a.cursor == b.cursor
}

fn sys_msg(text: &str) -> (r: ChatMsg)
    ensures
        r.role == MsgRole::System,
        r.text@ == text@,
{
    ChatMsg { role: MsgRole::System, text: copy_str(text) }
}

fn text_msg(role: MsgRole, text: String) -> (r: ChatMsg)
    ensures
        r.role == role,
        r.text@ == text@,
{
    ChatMsg { role, text }
}

fn cat2(a: &str, b: &str) -> (r: String)
    ensures
        r@ == a@ + b@,
{
    let mut s = copy_str(a);
    push_str(&mut s, b);
    s
}

fn cat3(a: &str, b: &str, c: &str) -> (r: String)
    ensures
        r@ == a@ + b@ + c@,
{
    let mut s = copy_str(a);
    push_str(&mut s, b);
    push_str(&mut s, c);
    s
}

/// `tool args`, as the session and the recent actions record an action.
pub open spec fn action_label(a: ParsedAction) -> Seq<char> {
    a.tool@ + " "@ + json_render(a.args@)
}

fn action_label_of(a: &ParsedAction) -> (r: String)
    ensures
        r@ == action_label(*a),
{
    let j = render_json(&a.args);
    cat3(a.tool.as_str(), " ", j.as_str())
}

/// The recent actions with one more, the oldest dropped past five.
pub open spec fn push_recent(r: Seq<Seq<char>>, label: Seq<char>) -> Seq<Seq<char>> {
    if r.len() + 1 > 5 {
        r.push(label).drop_first()
    } else {
        r.push(label)
    }
}

/// Whether a screen is one the autonomous loop waits out.
pub open spec fn is_transient(t: StateType) -> bool {
    t == StateType::Unknown || t == StateType::GameOver || t == StateType::Overlay
}

impl AppState {
    /// Keeps the reasoning of the stream as a dimmed chat entry.
    fn fold_reasoning(&mut self)
        ensures
            unchanged_but(*old(self), *final(self), true, true, false, false, false, false),
            final(self).reasoning_text@.len() == 0,
            final(self).streaming_text == old(self).streaming_text,
            final(self).full_text == old(self).full_text,
            final(self).wf() == old(self).wf(),
            old(self).reasoning_text@.len() == 0 ==> final(self).chat == old(self).chat
                && final(self).chat_scroll == old(self).chat_scroll,
            old(self).reasoning_text@.len() > 0 ==> {
                &&& final(self).chat@.len() == old(self).chat@.len() + 1
                &&& final(self).chat@.drop_last() == old(self).chat@
                &&& final(self).chat@.last().role == MsgRole::Thinking
                &&& final(self).chat@.last().text@ == old(self).reasoning_text@
            },
    {
        if !self.reasoning_text.as_str().is_empty() {
            let mut t = String::new();
            std::mem::swap(&mut t, &mut self.reasoning_text);
            self.chat.push(text_msg(MsgRole::Thinking, t));
            self.chat_scroll = 0;
            assert(self.chat@.drop_last() =~= old(self).chat@);
        }
    }

    /// Drops the stream being read: its reasoning is kept as a chat entry,
    /// its text is cleared.
    pub fn abort_stream(&mut self)
        ensures
            unchanged_but(*old(self), *final(self), true, true, false, false, false, false),
            final(self).streaming_text@.len() == 0,
            final(self).reasoning_text@.len() == 0,
            final(self).full_text@.len() == 0,
            final(self).wf() == old(self).wf(),
            old(self).reasoning_text@.len() == 0 ==> final(self).chat == old(self).chat
                && final(self).chat_scroll == old(self).chat_scroll,
            old(self).reasoning_text@.len() > 0 ==> {
                &&& final(self).chat@.len() == old(self).chat@.len() + 1
                &&& final(self).chat@.drop_last() == old(self).chat@
                &&& final(self).chat@.last().role == MsgRole::Thinking
                &&& final(self).chat@.last().text@ == old(self).reasoning_text@
            },
    {
        self.fold_reasoning();
        self.streaming_text = String::new();
        self.full_text = String::new();
    }

    /// Adds a recent action, keeping five at most.
    fn note_recent(&mut self, label: String)
        requires
            old(self).recent_actions@.len() <= 5,
        ensures
            views(final(self).recent_actions@) == push_recent(
                views(old(self).recent_actions@),
                label@,
            ),
            final(self).recent_actions@.len() <= 5,
            final(self).mode == old(self).mode,
            final(self).auto_mode == old(self).auto_mode,
            final(self).task == old(self).task,
            final(self).pending_auto_start == old(self).pending_auto_start,
            final(self).queued_auto_reply == old(self).queued_auto_reply,
            final(self).no_action_streak == old(self).no_action_streak,
            final(self).unknown_streak == old(self).unknown_streak,
            final(self).plan == old(self).plan,
            final(self).progress == old(self).progress,
            final(self).finished == old(self).finished,
            final(self).pending_actions == old(self).pending_actions,
            final(self).last_exec == old(self).last_exec,
            unchanged_but(*old(self), *final(self), false, false, false, false, true, false),
    {
        let ghost before = views(self.recent_actions@);
        self.recent_actions.push(label);
        assert(views(self.recent_actions@) =~= before.push(label@));
        if self.recent_actions.len() > 5 {
            self.recent_actions.remove(0);
            assert(views(self.recent_actions@) =~= before.push(label@).drop_first());
        }
    }

    /// The player answered a request for autonomous mode.  A yes enters
    /// autonomous mode with the requested task and waits for a stable state;
    /// a no turns the request down.
    pub fn resolve_auto_start(&mut self, confirm: bool) -> (r: Next)
        requires
            old(self).wf(),
        ensures
            final(self).wf(),
            unchanged_but(*old(self), *final(self), true, true, false, false, true, false),
            old(self).chat@.len() <= final(self).chat@.len(),
            final(self).chat@.subrange(0, old(self).chat@.len() as int) == old(self).chat@,
            final(self).auto_messages == old(self).auto_messages,
            final(self).pending_auto_start is None,
            final(self).full_text@.len() == 0,
            final(self).queued_auto_reply == old(self).queued_auto_reply,
            final(self).pending_actions == old(self).pending_actions,
            final(self).last_exec == old(self).last_exec,
            final(self).finished == old(self).finished,
            final(self).unknown_streak == (if confirm { 0 } else { old(self).unknown_streak }),
            confirm ==> {
                &&& final(self).auto_mode
                &&& final(self).no_action_streak == 0
                &&& final(self).plan is None
                &&& final(self).recent_actions@.len() == 0
                &&& final(self).task == (match old(self).pending_auto_start {
                    Some(t) => if t@.len() > 0 {
                        Some(t)
                    } else {
                        None
                    },
                    None => None,
                })
                &&& final(self).mode == Mode::FetchingState
                &&& next_view(r) == NextV::Stabilize
            },
            !confirm ==> {
                &&& final(self).auto_mode == old(self).auto_mode
                &&& final(self).task == old(self).task
                &&& final(self).no_action_streak == old(self).no_action_streak
                &&& final(self).plan == old(self).plan
                &&& final(self).recent_actions == old(self).recent_actions
                &&& final(self).mode == Mode::Idle
                &&& final(self).progress is None
                &&& next_view(r) == NextV::Idle
            },
    {
        let task = match self.pending_auto_start.take() {
            Some(t) => t,
            None => String::new(),
        };
        self.full_text = String::new();
        if confirm {
            self.auto_mode = true;
            self.no_action_streak = 0;
            self.unknown_streak = 0;
            self.plan = None;
            self.recent_actions = Vec::new();
            self.task = if task.as_str().is_empty() {
                None
            } else {
                Some(task)
            };
            self.chat.push(sys_msg("🤖 自主模式开启。"));
            self.chat_scroll = 0;
            self.mode = Mode::FetchingState;
            self.progress = Some(copy_str("等待状态稳定…"));
            Next::Stabilize
        } else {
            self.chat.push(sys_msg("⛔ 已驳回本次自主模式请求。"));
            self.chat_scroll = 0;
            self.mode = Mode::Idle;
            self.progress = None;
            Next::Idle
        }
    }

    /// A knowledge lookup the model asked for.  Refused when the query is
    /// empty or the task has had three lookups; otherwise its answer, found
    /// through the display name when needed, joins the lookup record.
    pub fn handle_lookup(&mut self, query: &str, kb: &KnowledgeBase) -> (r: bool)
        requires
            old(self).wf(),
        ensures
            final(self).wf(),
            unchanged_but(*old(self), *final(self), true, false, true, false, false, false),
            old(self).chat@.len() <= final(self).chat@.len(),
            final(self).chat@.subrange(0, old(self).chat@.len() as int) == old(self).chat@,
            r == (query@.len() > 0 && old(self).lookup_rounds < 3),
            r ==> final(self).lookup_rounds == old(self).lookup_rounds + 1,
            !r ==> final(self).lookup_rounds == old(self).lookup_rounds,
            r ==> final(self).lookup_context@ == old(self).lookup_context@ + lookup_entry(
                query@,
                smart_result(query@, old(self).game_state, *kb).0,
                smart_result(query@, old(self).game_state, *kb).1,
            ),
            !r ==> final(self).lookup_context == old(self).lookup_context,
    {
        if query.is_empty() || self.lookup_rounds >= 3 {
            self.chat.push(sys_msg("查询无效或已达本次任务上限（3 次），基于现有信息决策。"));
            self.chat_scroll = 0;
            return false;
        }
        self.lookup_rounds = self.lookup_rounds + 1;
        self.chat.push(text_msg(MsgRole::System, cat3("📖 查询知识库: ", query, "…")));
        let outcome = perform_lookup(query, &self.game_state, kb);
        if outcome.result.as_str().is_empty() {
            let entry = cat3("[查询 ", query, "]: 知识库无记录\n");
            push_str(&mut self.lookup_context, entry.as_str());
            self.chat.push(text_msg(MsgRole::System, cat2("未找到 ", query)));
        } else {
            if !crate::json::str_eq(outcome.used.as_str(), query) {
                self.chat.push(
                    text_msg(MsgRole::System, cat3("（显示名转内部 ID: ", outcome.used.as_str(), "）")),
                );
            }
            let mut entry = cat3("[查询 ", query, " → ");
            push_str(&mut entry, outcome.used.as_str());
            push_str(&mut entry, "]:\n");
            push_str(&mut entry, outcome.result.as_str());
            push_str(&mut entry, "\n");
            push_str(&mut self.lookup_context, entry.as_str());
            let rv = chars_of(outcome.result.as_str());
            let count = crate::text::u64_to_string(rv.len() as u64);
            let mut msg = cat3("✅ 已查询 ", outcome.used.as_str(), "（");
            push_str(&mut msg, count.as_str());
            push_str(&mut msg, " 字），继续分析…");
            self.chat.push(text_msg(MsgRole::System, msg));
        }
        self.chat_scroll = 0;
        proof {
            reveal_strlit("");
        }
        true
    }
}


// ---------------------------------------------------------------------------
// The player's input
// ---------------------------------------------------------------------------

/// What a submitted line leads to.
#[derive(Debug)]
pub enum EnterStep {
    /// An empty line: nothing.
    Ignore,
    /// A yes or no to a request for autonomous mode.
    Answered { next: Next },
    /// The request for autonomous mode was taken back.
    Cancelled,
    /// A line for the agent: stop the stream being read if asked, then
    /// handle the intent with `on_intent`.
    Submit { cancel_stream: bool, intent: UserIntent, text: String },
}

/// What an intent leads to.
#[derive(Debug)]
pub enum IntentStep {
    Quit,
    /// The agent stopped; stop the stream being read.
    Interrupted,
    /// Read the game state and start a decision with this message; when
    /// reading fails and `report_failure` holds, call `on_refresh_failed`.
    Refresh { user_msg: String, report_failure: bool },
}

impl AppState {
    /// The player submitted a line.
    pub fn on_enter(&mut self, text: String) -> (r: EnterStep)
        requires
            old(self).wf(),
        ensures
            final(self).wf(),
            final(self).auto_mode ==> old(self).auto_mode || (old(self).pending_auto_start is Some
                && auto_reply_of(text@) == Some(true)),
            text@.len() == 0 ==> r is Ignore && *final(self) == *old(self),
            text@.len() > 0 && old(self).pending_auto_start is Some && auto_reply_of(text@) is Some
                ==> r is Answered && final(self).pending_auto_start is None && final(self).auto_mode
                == (old(self).auto_mode || auto_reply_of(text@) == Some(true)),
            text@.len() > 0 && old(self).pending_auto_start is Some && auto_reply_of(text@) is None
                && is_stop_word(text@) ==> r is Cancelled && final(self).pending_auto_start is None
                && final(self).mode == Mode::Idle,
            r matches EnterStep::Submit { cancel_stream, intent, text: t } ==> {
                &&& t@ == text@
                &&& intent_view(intent) == intent_of(text@)
                &&& cancel_stream == (old(self).mode != Mode::Idle && old(self).mode
                    != Mode::PendingConfirm)
                &&& final(self).pending_auto_start is None
                &&& final(self).auto_mode == old(self).auto_mode
                &&& (cancel_stream ==> final(self).mode == Mode::Idle)
            },
            text@.len() > 0 && !(old(self).pending_auto_start is Some && (auto_reply_of(text@) is Some
                || is_stop_word(text@))) ==> r is Submit,
    {
        if text.as_str().is_empty() {
            return EnterStep::Ignore;
        }
        if self.pending_auto_start.is_some() {
            match auto_reply(text.as_str()) {
                Some(confirm) => {
                    self.chat.push(text_msg(MsgRole::User, copy_str(text.as_str())));
                    self.chat_scroll = 0;
                    let next = self.resolve_auto_start(confirm);
                    return EnterStep::Answered { next };
                },
                None => {},
            }
            if stop_word(text.as_str()) {
                self.pending_auto_start = None;
                self.chat.push(text_msg(MsgRole::User, copy_str(text.as_str())));
                self.chat.push(sys_msg("已取消自主模式确认。"));
                self.chat_scroll = 0;
                self.mode = Mode::Idle;
                self.progress = None;
                return EnterStep::Cancelled;
            }
            self.pending_auto_start = None;
            self.chat.push(sys_msg("已取消自主模式确认，按普通对话处理。"));
            self.chat_scroll = 0;
        }
        let cancel = self.mode != Mode::Idle && self.mode != Mode::PendingConfirm;
        if cancel {
            self.abort_stream();
            self.mode = Mode::Idle;
        }
        self.chat.push(text_msg(MsgRole::User, copy_str(text.as_str())));
        self.chat_scroll = 0;
        self.progress = Some(copy_str("理解中…"));
        let intent = parse_intent(text.as_str());
        EnterStep::Submit { cancel_stream: cancel, intent, text }
    }

    /// An intent of the player is handled: the task's lookups and queued
    /// actions are dropped; an interrupt stops the agent and leaves
    /// autonomous mode; a rejection or any other line asks the model again
    /// on a fresh game state.
    pub fn on_intent(&mut self, intent: &UserIntent, text: &str) -> (r: IntentStep)
        requires
            old(self).wf(),
        ensures
            final(self).wf(),
            final(self).auto_mode ==> old(self).auto_mode,
            final(self).progress is None || !(intent is Quit),
            intent is Quit ==> r is Quit,
            intent is Interrupt ==> {
                &&& r is Interrupted
                &&& !final(self).auto_mode
                &&& final(self).task is None
                &&& final(self).mode == Mode::Idle
                &&& final(self).progress is None
                &&& final(self).history@.len() == 0
                &&& final(self).pending_actions@.len() == 0
                &&& final(self).streaming_text@.len() == 0
                &&& final(self).reasoning_text@.len() == 0
                &&& final(self).full_text@.len() == 0
                &&& final(self).chat@.len() == old(self).chat@.len() + 1
                    + (if old(self).reasoning_text@.len() > 0 { 1int } else { 0int })
                &&& final(self).chat@.subrange(0, old(self).chat@.len() as int) == old(self).chat@
                &&& (old(self).reasoning_text@.len() > 0 ==> final(self).chat@[old(self).chat@.len() as int]
                    .role == MsgRole::Thinking && final(self).chat@[old(self).chat@.len() as int].text@
                    == old(self).reasoning_text@)
                &&& final(self).chat@.last().role == MsgRole::System
                &&& final(self).chat@.last().text@ == "已打断，退出自主模式。"@
                &&& final(self).chat_scroll == 0
            },
            intent is Quit ==> *final(self) == (AppState { progress: None, ..*old(self) }),
            !(intent is Quit) ==> (final(self).pending_user_input matches Some(p) && p@ == text@),
            intent is Reject ==> {
                &&& r matches IntentStep::Refresh { user_msg, report_failure }
                &&& user_msg@ == text@ && report_failure
                &&& final(self).mode == Mode::Streaming
                &&& final(self).task is None
                &&& final(self).plan is None
                &&& final(self).recent_actions@.len() == 0
                &&& final(self).pending_action is None
                &&& final(self).progress matches Some(p) && p@ == "重新决策中…"@
                &&& final(self).streaming_text@.len() == 0
                &&& final(self).full_text@.len() == 0
                &&& final(self).history@.map_values(|x: crate::decide::ChatTurn| turn_line(x))
                    == old(self).history@.map_values(|x: crate::decide::ChatTurn| turn_line(x)).push((true, text@))
                &&& *final(self) == (AppState {
                    progress: final(self).progress,
                    lookup_context: final(self).lookup_context,
                    lookup_rounds: 0,
                    queued_auto_reply: None,
                    pending_user_input: final(self).pending_user_input,
                    pending_actions: final(self).pending_actions,
                    pending_action: None,
                    plan: None,
                    recent_actions: final(self).recent_actions,
                    history: final(self).history,
                    task: None,
                    mode: Mode::Streaming,
                    streaming_text: final(self).streaming_text,
                    full_text: final(self).full_text,
                    ..*old(self)
                })
            },
            intent matches UserIntent::Chat(m) ==> {
                &&& r matches IntentStep::Refresh { user_msg, report_failure }
                &&& user_msg@ == m@ && !report_failure
                &&& final(self).mode == Mode::Streaming
                &&& final(self).task is None
                &&& final(self).plan == old(self).plan
                &&& final(self).recent_actions == old(self).recent_actions
                &&& final(self).progress matches Some(p) && p@ == "LLM 回复中…"@
                &&& final(self).streaming_text@.len() == 0
                &&& final(self).full_text@.len() == 0
                &&& final(self).history@.map_values(|x: crate::decide::ChatTurn| turn_line(x))
                    == old(self).history@.map_values(|x: crate::decide::ChatTurn| turn_line(x)).push((true, m@))
                &&& *final(self) == (AppState {
                    progress: final(self).progress,
                    lookup_context: final(self).lookup_context,
                    lookup_rounds: 0,
                    queued_auto_reply: None,
                    pending_user_input: final(self).pending_user_input,
                    pending_actions: final(self).pending_actions,
                    history: final(self).history,
                    task: None,
                    mode: Mode::Streaming,
                    streaming_text: final(self).streaming_text,
                    full_text: final(self).full_text,
                    ..*old(self)
                })
            },
            !(intent is Quit) ==> {
                &&& final(self).lookup_rounds == 0
                &&& final(self).lookup_context@.len() == 0
                &&& final(self).queued_auto_reply is None
                &&& final(self).pending_actions@.len() == 0
                &&& final(self).auto_mode == (old(self).auto_mode && !(intent is Interrupt))
            },
    {
        self.progress = None;
        match intent {
            UserIntent::Quit => {
                return IntentStep::Quit;
            },
            _ => {},
        }
        self.lookup_context = String::new();
        self.lookup_rounds = 0;
        self.queued_auto_reply = None;
        self.pending_user_input = Some(copy_str(text));
        self.pending_actions = Vec::new();
        match intent {
            UserIntent::Chat(_) => {},
            _ => {
                self.plan = None;
                self.recent_actions = Vec::new();
            },
        }
        match intent {
            UserIntent::Interrupt => {
                let ghost c0 = self.chat@;
                self.abort_stream();
                let ghost c1 = self.chat@;
                assert(c1.subrange(0, c0.len() as int) =~= c0) by {
                    if c1.len() > c0.len() {
                        assert(c1.drop_last() == c0);
                    }
                }
                self.auto_mode = false;
                self.task = None;
                self.chat.push(sys_msg("已打断，退出自主模式。"));
                assert(self.chat@.drop_last() == c1);
                assert(self.chat@.subrange(0, c0.len() as int) =~= c0);
                self.chat_scroll = 0;
                self.history = Vec::new();
                self.streaming_text = String::new();
                self.mode = Mode::Idle;
                self.progress = None;
                self.full_text = String::new();
                IntentStep::Interrupted
            },
            UserIntent::Reject => {
                let ghost h0 = self.history@;
                self.history.push(crate::decide::ChatTurn::User(copy_str(text)));
                assert(self.history@.map_values(|x: crate::decide::ChatTurn| turn_line(x))
                    =~= h0.map_values(|x: crate::decide::ChatTurn| turn_line(x)).push((true, text@)));
                self.pending_action = None;
                self.task = None;
                self.progress = Some(copy_str("重新决策中…"));
                self.mode = Mode::Streaming;
                self.streaming_text = String::new();
                self.full_text = String::new();
                IntentStep::Refresh { user_msg: copy_str(text), report_failure: true }
            },
            UserIntent::Chat(msg) => {
                let ghost h0 = self.history@;
                self.history.push(crate::decide::ChatTurn::User(copy_str(msg.as_str())));
                assert(self.history@.map_values(|x: crate::decide::ChatTurn| turn_line(x))
                    =~= h0.map_values(|x: crate::decide::ChatTurn| turn_line(x)).push((true, msg@)));
                self.task = None;
                self.progress = Some(copy_str("LLM 回复中…"));
                self.mode = Mode::Streaming;
                self.streaming_text = String::new();
                self.full_text = String::new();
                IntentStep::Refresh { user_msg: copy_str(msg.as_str()), report_failure: false }
            },
            UserIntent::Quit => IntentStep::Quit,
        }
    }

    /// Reading the game state for a rejected suggestion failed.
    pub fn on_refresh_failed(&mut self)
        requires
            old(self).wf(),
        ensures
            final(self).wf(),
            final(self).mode == Mode::Idle,
            final(self).auto_mode == old(self).auto_mode,
            final(self).chat@.len() == old(self).chat@.len() + 1,
            final(self).chat@.drop_last() == old(self).chat@,
            final(self).chat@.last().role == MsgRole::System,
            final(self).chat@.last().text@ == "取状态失败"@,
            *final(self) == (AppState { chat: final(self).chat, chat_scroll: 0, mode: Mode::Idle, ..*old(self) }),
    {
        self.chat.push(sys_msg("取状态失败"));
        self.chat_scroll = 0;
        self.mode = Mode::Idle;
    }

    /// The budget is spent: the agent stops.
    pub fn on_budget_exceeded(&mut self, summary: &str)
        requires
            old(self).wf(),
        ensures
            final(self).wf(),
            final(self).finished,
            final(self).mode == Mode::Idle,
            final(self).progress matches Some(p) && p@ == "预算超限: "@ + summary@,
            final(self).auto_mode == old(self).auto_mode,
            *final(self) == (AppState {
                finished: true,
                progress: final(self).progress,
                mode: Mode::Idle,
                ..*old(self)
            }),
    {
        self.finished = true;
        self.progress = Some(cat2("预算超限: ", summary));
        self.mode = Mode::Idle;
    }

    /// A game state was read: it becomes the known state.
    pub fn adopt_state(&mut self, state_json: String, gs: GameState)
        requires
            old(self).wf(),
        ensures
            final(self).wf(),
            final(self).last_state_json@ == state_json@,
            final(self).game_state == gs,
            final(self).auto_mode == old(self).auto_mode,
            final(self).mode == old(self).mode,
            *final(self) == (AppState { last_state_json: final(self).last_state_json, game_state: gs, ..*old(self) }),
    {
        self.last_state_json = state_json;
        self.game_state = gs;
    }

    /// Starts a decision on the known state: it is recorded as the state
    /// decided on, and the messages for the model are built with the
    /// knowledge reference (and the lookup record), the session notes, the
    /// plan, the recent actions and the task.
    pub fn begin_decision(
        &mut self,
        kb: &KnowledgeBase,
        session_notes: Option<&str>,
        model: &str,
        user_msg: Option<&str>,
    ) -> (r: Vec<ChatMessage>)
        requires
            old(self).wf(),
        ensures
            final(self).wf(),
            final(self).decision_state_json@ == old(self).last_state_json@,
            final(self).auto_mode == old(self).auto_mode,
            final(self).mode == old(self).mode,
            *final(self) == (AppState { decision_state_json: final(self).decision_state_json, ..*old(self) }),
            r@.map_values(|m: ChatMessage| crate::decide::msg_of(m)) == crate::decide::prompt(
                old(self).last_state_json@,
                model@,
                old(self).history@,
                crate::app::summary_text(old(self).game_state),
                crate::lookup::opt_str_view(user_msg),
                old(self).auto_mode,
                crate::text::opt_view(old(self).task),
                Some(decision_knowledge(old(self).game_state, *kb, old(self).lookup_context@)),
                crate::lookup::opt_str_view(session_notes),
                crate::text::opt_view(old(self).plan),
                views(old(self).recent_actions@),
                old(self).zh,
            ),
    {
        self.decision_state_json = copy_str(self.last_state_json.as_str());
        let summary = crate::app::state_summary(&self.game_state);
        let mut knowledge = crate::context::search_game_knowledge(&self.game_state, kb);
        if !self.lookup_context.as_str().is_empty() {
            push_str(&mut knowledge, "\n=== 知识库查询记录 ===\n");
            push_str(&mut knowledge, self.lookup_context.as_str());
        }
        let task: Option<&str> = match &self.task {
            Some(t) => Some(t.as_str()),
            None => None,
        };
        let plan: Option<&str> = match &self.plan {
            Some(p) => Some(p.as_str()),
            None => None,
        };
        assert(crate::lookup::opt_str_view(task) == crate::text::opt_view(self.task));
        assert(crate::lookup::opt_str_view(plan) == crate::text::opt_view(self.plan));
        assert(knowledge@ == decision_knowledge(self.game_state, *kb, self.lookup_context@));
        crate::decide::build_messages(
            self.last_state_json.as_str(),
            model,
            &self.history,
            summary.as_str(),
            user_msg,
            self.auto_mode,
            task,
            Some(knowledge.as_str()),
            session_notes,
            plan,
            &self.recent_actions,
            self.zh,
        )
    }

    /// Whether the stream of a decision started.
    pub fn on_stream_started(&mut self, ok: bool, error: &str)
        requires
            old(self).wf(),
        ensures
            final(self).wf(),
            final(self).mode == old(self).mode,
            final(self).auto_mode == old(self).auto_mode,
            ok ==> final(self).progress == (match old(self).progress {
                Some(p) => Some(p),
                None => final(self).progress,
            }) && final(self).progress is Some,
            ok && old(self).progress is None ==> (final(self).progress matches Some(p) && p@ == "分析中…"@),
            ok ==> *final(self) == (AppState { progress: final(self).progress, ..*old(self) }),
            !ok ==> {
                &&& final(self).chat@.len() == old(self).chat@.len() + 1
                &&& final(self).chat@.drop_last() == old(self).chat@
                &&& final(self).chat@.last().role == MsgRole::System
                &&& final(self).chat@.last().text@ == "LLM 启动失败: "@ + error@
                &&& *final(self) == (AppState { chat: final(self).chat, chat_scroll: 0, ..*old(self) })
            },
    {
        if ok {
            if self.progress.is_none() {
                self.progress = Some(copy_str("分析中…"));
            }
        } else {
            self.chat.push(text_msg(MsgRole::System, cat2("LLM 启动失败: ", error)));
            self.chat_scroll = 0;
        }
    }

    /// A piece of the answer arrived.
    pub fn on_delta(&mut self, t: &str)
        ensures
            final(self).streaming_text@ == old(self).streaming_text@ + t@,
            final(self).full_text@ == old(self).full_text@ + t@,
            unchanged_but(*old(self), *final(self), false, true, false, false, false, false),
            final(self).reasoning_text == old(self).reasoning_text,
    {
        push_str(&mut self.streaming_text, t);
        push_str(&mut self.full_text, t);
    }

    /// A piece of the reasoning arrived; kept only when it is shown.
    pub fn on_reasoning(&mut self, t: &str)
        ensures
            final(self).reasoning_text@ == (if old(self).show_thinking {
                old(self).reasoning_text@ + t@
            } else {
                old(self).reasoning_text@
            }),
            unchanged_but(*old(self), *final(self), false, true, false, false, false, false),
            final(self).streaming_text == old(self).streaming_text,
            final(self).full_text == old(self).full_text,
    {
        if self.show_thinking {
            push_str(&mut self.reasoning_text, t);
        }
    }

    /// The usage of a stream arrived, with the totals spent so far.
    pub fn on_usage(&mut self, usage: crate::llm::Usage, total_input: u64, total_output: u64)
        ensures
            final(self).last_usage == usage,
            final(self).total_input == total_input,
            final(self).total_output == total_output,
            final(self).auto_mode == old(self).auto_mode,
            final(self).mode == old(self).mode,
            final(self).wf() == old(self).wf(),
            *final(self) == (AppState { last_usage: usage, total_input, total_output, ..*old(self) }),
    {
        self.last_usage = usage;
        self.total_input = total_input;
        self.total_output = total_output;
    }

    /// The stream failed.
    pub fn on_stream_error(&mut self, error: &str)
        requires
            old(self).wf(),
        ensures
            final(self).wf(),
            final(self).mode == Mode::Idle,
            final(self).progress is None,
            final(self).auto_mode == old(self).auto_mode,
            final(self).streaming_text@.len() == 0,
            final(self).full_text@.len() == 0,
            final(self).reasoning_text@.len() == 0,
            final(self).chat@.subrange(0, old(self).chat@.len() as int) == old(self).chat@,
            final(self).chat@[old(self).chat@.len() as int].role == MsgRole::System,
            final(self).chat@[old(self).chat@.len() as int].text@ == "LLM 错误: "@ + error@,
            old(self).reasoning_text@.len() == 0 ==> final(self).chat@.len() == old(self).chat@.len() + 1,
            old(self).reasoning_text@.len() > 0 ==> {
                &&& final(self).chat@.len() == old(self).chat@.len() + 2
                &&& final(self).chat@.last().role == MsgRole::Thinking
                &&& final(self).chat@.last().text@ == old(self).reasoning_text@
            },
            *final(self) == (AppState {
                chat: final(self).chat,
                chat_scroll: final(self).chat_scroll,
                streaming_text: final(self).streaming_text,
                reasoning_text: final(self).reasoning_text,
                full_text: final(self).full_text,
                mode: Mode::Idle,
                progress: None,
                ..*old(self)
            }),
    {
        self.chat.push(text_msg(MsgRole::System, cat2("LLM 错误: ", error)));
        self.chat_scroll = 0;
        let ghost mid = self.chat@;
        let ghost n = old(self).chat@.len() as int;
        assert(mid[n].role == MsgRole::System && mid[n].text@ == "LLM 错误: "@ + error@);
        assert(mid.subrange(0, n) =~= old(self).chat@);
        self.fold_reasoning();
        assert(self.chat@[n] == mid[n]) by {
            if old(self).reasoning_text@.len() > 0 {
                assert(self.chat@.drop_last()[n] == mid[n]);
            }
        }
        assert(self.chat@.subrange(0, n) =~= old(self).chat@) by {
            if old(self).reasoning_text@.len() > 0 {
                assert(self.chat@.subrange(0, n) =~= self.chat@.drop_last().subrange(0, n));
            }
        }
        self.streaming_text = String::new();
        self.mode = Mode::Idle;
        self.progress = None;
        self.full_text = String::new();
    }
}

/// The knowledge reference of a decision, with the lookup record after it.
pub open spec fn decision_knowledge(gs: GameState, kb: KnowledgeBase, lookups: Seq<char>) -> Seq<
    char,
> {
    crate::context::knowledge_context(gs, kb) + (if lookups.len() > 0 {
        "\n=== 知识库查询记录 ===\n"@ + lookups
    } else {
        Seq::empty()
    })
}


// ---------------------------------------------------------------------------
// A finished answer
// ---------------------------------------------------------------------------

/// What a finished answer leads to.
pub enum DoneKind {
    /// The game state changed while the model thought: the answer is void.
    Stale,
    /// The model asked for a knowledge lookup.
    Lookup,
    /// The model asked for autonomous mode while in it: ignored.
    AutoStartIgnored,
    /// The model asked for autonomous mode and the player had already answered.
    AutoStartAnswered(bool),
    /// The model asked for autonomous mode: the player is asked.
    AutoStartAsked,
    /// The model ended autonomous mode.
    AutoStop,
    /// A game action outside autonomous mode: vetoed.
    Veto,
    /// A game action in autonomous mode: executed.
    Execute,
    /// A third autonomous round in a row without an action: autonomous mode ends.
    GiveUp,
    /// An autonomous round without an action: the model is reminded.
    Nudge,
    /// An answer without an action outside autonomous mode.
    Answered,
}

/// The decision on a finished answer, from whether the state is still the
/// one decided on, the answer's actions, and the control state.
pub open spec fn done_kind(
    valid: bool,
    acts: Seq<ActionV>,
    auto: bool,
    queued: Option<bool>,
    streak: u32,
) -> DoneKind {
    if !valid {
        DoneKind::Stale
    } else if acts.len() > 0 {
        let t = acts[0].tool;
        if t == "lookup"@ {
            DoneKind::Lookup
        } else if t == "auto_start"@ {
            if auto {
                DoneKind::AutoStartIgnored
            } else {
                match queued {
                    Some(c) => DoneKind::AutoStartAnswered(c),
                    None => DoneKind::AutoStartAsked,
                }
            }
        } else if t == "auto_stop"@ {
            DoneKind::AutoStop
        } else if !auto {
            DoneKind::Veto
        } else {
            DoneKind::Execute
        }
    } else if auto {
        if streak + 1 >= 3 {
            DoneKind::GiveUp
        } else {
            DoneKind::Nudge
        }
    } else {
        DoneKind::Answered
    }
}

/// A string argument of an action (empty when missing or not a string).
pub open spec fn arg_text(args: Map<Seq<char>, Json>, key: Seq<char>) -> Seq<char> {
    if args.contains_key(key) {
        match as_str(args[key]) {
            Some(s) => s,
            None => Seq::empty(),
        }
    } else {
        Seq::empty()
    }
}

fn arg_text_of(a: &ParsedAction, key: &str) -> (r: String)
    requires
        action_wf(*a),
    ensures
        r@ == arg_text(action_view(*a).args, key@),
{
    match &a.args {
        JsonValue::Object(m) => match crate::json::members_get(m, key) {
            Some(v) => match v.as_str() {
                Some(s) => copy_str(s),
                None => String::new(),
            },
            None => String::new(),
        },
        _ => String::new(),
    }
}

/// What a finished answer gives back to the caller: the notes to append to
/// the session notes, the session record of the round, and what to do next.
pub struct StreamDone {
    pub notes: Vec<String>,
    pub record: Option<TurnRecord>,
    pub next: Next,
}

/// What the chat says when an answer is dropped because the state changed.
pub const STALE_NOTICE: &'static str = "⚠️ 游戏状态已变化（决策期间局面变动），本次分析作废。";

/// What the chat says when autonomous mode gives up after answers without an action.
pub const GIVE_UP_NOTICE: &'static str = "自主模式结束（连续 3 轮无操作）。";

/// What the chat says when the model ends autonomous mode.
pub const AUTO_STOP_NOTICE: &'static str = "🤖 自主模式结束。";

/// The call an executed action answers: the first native call, or `text_0`
/// for a text action.
pub open spec fn exec_call_id(calls: Seq<ToolCall>) -> Seq<char> {
    if calls.len() > 0 {
        calls[0].id@
    } else {
        "text_0"@
    }
}

/// The record of an action sent to the game and not yet answered.
pub open spec fn exec_started(le: Option<LastExec>, calls: Seq<ToolCall>) -> bool {
    le matches Some(e) && e.call_id@ == exec_call_id(calls) && e.success && e.message@.len() == 0
}

pub const LOOKUP_DONE: &'static str = "查询完成，结果已记录在「知识库查询记录」中，请基于该信息继续。";

pub const LOOKUP_FAILED: &'static str = "查询失败或已达上限，请基于现有信息继续。";

pub const LOOKUP_RESUME: &'static str = "（系统）查询完成，结果已附在下方「知识库查询记录」中。请基于查询结果继续完成我之前的指令。";

pub const LOOKUP_RESUME_FAILED: &'static str = "（系统）查询无效或已达上限（3 次）。请基于现有信息继续完成我之前的指令。";

pub const NUDGE: &'static str = "（系统）自主模式仍在进行。请直接给出下一步游戏操作工具调用；仅当任务已全部完成时才调用 auto_stop。";

impl AppState {
    /// The answer was decided on a state that is no longer the game's: it is
    /// dropped, and autonomous mode waits for a stable state.
    fn on_stale(&mut self, current_json: String, current_gs: GameState) -> (r: Next)
        requires
            old(self).wf(),
        ensures
            final(self).wf(),
            final(self).auto_mode == old(self).auto_mode,
            final(self).task == old(self).task,
            final(self).pending_actions == old(self).pending_actions,
            final(self).recent_actions == old(self).recent_actions,
            final(self).no_action_streak == old(self).no_action_streak,
            final(self).pending_auto_start == old(self).pending_auto_start,
            final(self).queued_auto_reply == old(self).queued_auto_reply,
            final(self).full_text@.len() == 0,
            final(self).chat@.last().role == MsgRole::System,
            final(self).chat@.last().text@ == STALE_NOTICE@,
            current_json@.len() > 0 ==> final(self).game_state == current_gs
                && final(self).last_state_json@ == current_json@,
            current_json@.len() == 0 ==> final(self).game_state == old(self).game_state
                && final(self).last_state_json == old(self).last_state_json,
            (old(self).auto_mode && current_json@.len() > 0 && !is_transient(
                current_gs.state_type,
            )) ==> next_view(r) == NextV::Stabilize && final(self).mode == Mode::FetchingState,
            !(old(self).auto_mode && current_json@.len() > 0 && !is_transient(
                current_gs.state_type,
            )) ==> next_view(r) == NextV::Idle && final(self).mode == Mode::Idle,
    {
        self.streaming_text = String::new();
        self.fold_reasoning();
        self.full_text = String::new();
        self.chat.push(sys_msg(STALE_NOTICE));
        self.chat_scroll = 0;
        let nonempty = !current_json.as_str().is_empty();
        let transient = current_gs.state_type == StateType::Unknown || current_gs.state_type
            == StateType::GameOver || current_gs.state_type == StateType::Overlay;
        if nonempty {
            self.game_state = current_gs;
            self.last_state_json = current_json;
        }
        if self.auto_mode && nonempty && !transient {
            self.mode = Mode::FetchingState;
            self.progress = Some(copy_str("等待状态稳定…"));
            return Next::Stabilize;
        }
        self.mode = Mode::Idle;
        self.progress = None;
        Next::Idle
    }

    /// Acts on the first action of an answer (see `done_kind`).
    fn act_on_answer(
        &mut self,
        actions: Vec<ParsedAction>,
        tool_calls: &Vec<ToolCall>,
        kb: &KnowledgeBase,
    ) -> (r: Next)
        requires
            old(self).wf(),
            forall|i: int| 0 <= i < actions@.len() ==> action_wf(#[trigger] actions@[i]),
        ensures
            final(self).wf(),
            unchanged_but(*old(self), *final(self), true, true, true, true, true, false),
            old(self).chat@.len() <= final(self).chat@.len(),
            final(self).chat@.subrange(0, old(self).chat@.len() as int) == old(self).chat@,
            ({
                let acts = actions_view(actions@);
                let k = done_kind(
                    true,
                    acts,
                    old(self).auto_mode,
                    old(self).queued_auto_reply,
                    old(self).no_action_streak,
                );
                &&& final(self).auto_mode ==> old(self).auto_mode || k == DoneKind::AutoStartAnswered(
                    true,
                )
                &&& (r is Exec ==> k == DoneKind::Execute)
                &&& (k == DoneKind::Execute ==> {
                    &&& old(self).auto_mode && final(self).auto_mode
                    &&& r matches Next::Exec { tool, args } && action_view(
                        ParsedAction { tool, args },
                    ) == acts[0]
                    &&& actions_view(final(self).pending_actions@) == acts.skip(1)
                    &&& views(final(self).recent_actions@) == push_recent(
                        views(old(self).recent_actions@),
                        action_label(actions@[0]),
                    )
                    &&& final(self).no_action_streak == 0
                    &&& final(self).mode == Mode::Executing
                    &&& final(self).auto_messages == old(self).auto_messages
                    &&& exec_started(final(self).last_exec, tool_calls@)
                })
                &&& (k == DoneKind::Veto ==> {
                    &&& !final(self).auto_mode
                    &&& next_view(r) == NextV::Idle
                    &&& final(self).mode == Mode::Idle
                    &&& final(self).pending_actions@.len() == 0
                    &&& final(self).chat@.last().text@ == "⛔ 已否决 "@ + acts[0].tool
                        + "：非自主模式不执行游戏操作。需要操作时请输出 ACTION: auto_start。"@
                })
                &&& (k == DoneKind::AutoStartAsked ==> {
                    &&& final(self).pending_auto_start matches Some(t) && t@ == arg_text(
                        acts[0].args,
                        "task"@,
                    )
                    &&& !final(self).auto_mode
                    &&& final(self).mode == Mode::PendingConfirm
                    &&& next_view(r) == NextV::Idle
                })
                &&& (k == DoneKind::AutoStartAnswered(true) ==> final(self).auto_mode
                    && next_view(r) == NextV::Stabilize)
                &&& (k == DoneKind::AutoStartAnswered(false) ==> !final(self).auto_mode
                    && next_view(r) == NextV::Idle)
                &&& (k == DoneKind::AutoStartIgnored ==> final(self).auto_mode && next_view(r)
                    == NextV::Idle && final(self).auto_messages == old(self).auto_messages)
                &&& (k == DoneKind::AutoStop ==> {
                    &&& !final(self).auto_mode
                    &&& final(self).mode == Mode::Idle
                    &&& next_view(r) == NextV::Idle
                    &&& final(self).pending_actions@.len() == 0
                    &&& (old(self).auto_mode ==> final(self).auto_messages@.len() == 0
                        && final(self).chat@.last().role == MsgRole::System
                        && final(self).chat@.last().text@ == AUTO_STOP_NOTICE@)
                    &&& (!old(self).auto_mode ==> final(self).chat == old(self).chat)
                })
                &&& (k == DoneKind::Lookup ==> {
                    let q = arg_text(acts[0].args, "query"@);
                    let ok = q.len() > 0 && old(self).lookup_rounds < 3;
                    &&& final(self).mode == Mode::Streaming
                    &&& final(self).auto_mode == old(self).auto_mode
                    &&& final(self).lookup_context@ == lookup_record_after(*old(self), q, *kb)
                    &&& (old(self).auto_mode ==> exists|m: ChatMessage| #[trigger] is_tool_message(
                        m,
                        lookup_call_id(tool_calls@),
                        lookup_reply(*old(self), q),
                    ) && final(self).auto_messages@ == trimmed_chain(old(self).auto_messages@.push(m)))
                    &&& final(self).lookup_rounds == (if ok {
                        old(self).lookup_rounds + 1
                    } else {
                        old(self).lookup_rounds as int
                    })
                    &&& (old(self).auto_mode ==> next_view(r) == NextV::ContinueAuto)
                    &&& (!old(self).auto_mode ==> next_view(r) == NextV::Refetch(
                        if ok {
                            LOOKUP_RESUME@
                        } else {
                            LOOKUP_RESUME_FAILED@
                        },
                    ))
                })
                &&& (k == DoneKind::GiveUp ==> {
                    &&& !final(self).auto_mode
                    &&& final(self).task is None
                    &&& final(self).no_action_streak == 0
                    &&& final(self).mode == Mode::Idle
                    &&& next_view(r) == NextV::Idle
                    &&& final(self).chat@.last().role == MsgRole::System
                    &&& final(self).chat@.last().text@ == GIVE_UP_NOTICE@
                })
                &&& (k == DoneKind::Nudge ==> {
                    &&& final(self).auto_mode
                    &&& final(self).no_action_streak == old(self).no_action_streak + 1
                    &&& final(self).mode == Mode::Streaming
                    &&& next_view(r) == NextV::ContinueAuto
                })
                &&& (k == DoneKind::Answered ==> {
                    &&& !final(self).auto_mode
                    &&& final(self).mode == Mode::Idle
                    &&& final(self).progress is None
                    &&& next_view(r) == NextV::Idle
                })
            }),
    {
        let mut actions = actions;
        if actions.len() == 0 {
            if self.auto_mode {
                self.no_action_streak = self.no_action_streak + 1;
                if self.no_action_streak >= 3 {
                    self.auto_mode = false;
                    self.task = None;
                    self.no_action_streak = 0;
                    self.chat.push(sys_msg(GIVE_UP_NOTICE));
                    self.chat_scroll = 0;
                    self.mode = Mode::Idle;
                    self.progress = None;
                    return Next::Idle;
                }
                self.auto_messages.push(ChatMessage::user(NUDGE));
                self.full_text = String::new();
                self.pending_actions = Vec::new();
                self.mode = Mode::Streaming;
                self.progress = Some(copy_str("继续分析…"));
                self.trim_auto_chain();
                return Next::ContinueAuto;
            }
            self.mode = Mode::Idle;
            self.progress = None;
            return Next::Idle;
        }
        let ghost acts = actions_view(actions@);
        let first_tool = copy_str(actions[0].tool.as_str());
        assert(first_tool@ == acts[0].tool);
        if is(&first_tool, "lookup") {
            let query = arg_text_of(&actions[0], "query");
            let ok = self.handle_lookup(query.as_str(), kb);
            self.full_text = String::new();
            self.pending_actions = Vec::new();
            self.mode = Mode::Streaming;
            self.progress = Some(copy_str("结合查询结果分析…"));
            if self.auto_mode {
                let call_id = if tool_calls.len() > 0 {
                    copy_str(tool_calls[0].id.as_str())
                } else {
                    copy_str("lookup")
                };
                let content = if ok {
                    LOOKUP_DONE
                } else {
                    LOOKUP_FAILED
                };
                let ghost chain0 = self.auto_messages@;
                let m = ChatMessage::tool(call_id.as_str(), content);
                let ghost pushed = m;
                self.auto_messages.push(m);
                assert(self.auto_messages@ == chain0.push(pushed));
                assert(chain0 == old(self).auto_messages@);
                self.trim_auto_chain();
                assert(self.lookup_context@ == lookup_record_after(*old(self), query@, *kb));
                assert(query@ == arg_text(actions_view(actions@)[0].args, "query"@));
                assert(ok == (query@.len() > 0 && old(self).lookup_rounds < 3));
                assert(is_tool_message(pushed, lookup_call_id(tool_calls@), lookup_reply(*old(self), arg_text(acts[0].args, "query"@))));
                assert(self.auto_messages@ == trimmed_chain(old(self).auto_messages@.push(pushed)));
                return Next::ContinueAuto;
            }
            let msg = if ok {
                LOOKUP_RESUME
            } else {
                LOOKUP_RESUME_FAILED
            };
            return Next::Refetch { user_msg: copy_str(msg) };
        }
        if is(&first_tool, "auto_start") {
            let task = arg_text_of(&actions[0], "task");
            if self.auto_mode {
                self.full_text = String::new();
                self.pending_actions = Vec::new();
                return Next::Idle;
            }
            match self.queued_auto_reply.take() {
                Some(confirm) => {
                    let t = if confirm {
                        "应用已记录的答复：y"
                    } else {
                        "应用已记录的答复：n"
                    };
                    self.chat.push(sys_msg(t));
                    self.chat_scroll = 0;
                    return self.resolve_auto_start(confirm);
                },
                None => {},
            }
            let mut ask = cat3("🤖 Agent 请求开启自主模式（", task.as_str(), "）。\n");
            push_str(&mut ask, "输入 y 同意 / n 拒绝（其他文字将取消该请求并当作普通对话）。");
            self.pending_auto_start = Some(task);
            self.chat.push(text_msg(MsgRole::System, ask));
            self.chat_scroll = 0;
            self.full_text = String::new();
            self.pending_actions = Vec::new();
            self.mode = Mode::PendingConfirm;
            self.progress = Some(copy_str("等待确认自主模式…"));
            return Next::Idle;
        }
        if is(&first_tool, "auto_stop") {
            if self.auto_mode {
                self.auto_mode = false;
                self.task = None;
                self.auto_messages = Vec::new();
                self.chat.push(sys_msg(AUTO_STOP_NOTICE));
                self.chat_scroll = 0;
            }
            self.pending_actions = Vec::new();
            self.mode = Mode::Idle;
            self.progress = None;
            self.full_text = String::new();
            return Next::Idle;
        }
        if !self.auto_mode {
            let veto = cat3(
                "⛔ 已否决 ",
                first_tool.as_str(),
                "：非自主模式不执行游戏操作。需要操作时请输出 ACTION: auto_start。",
            );
            self.chat.push(text_msg(MsgRole::System, veto));
            self.chat_scroll = 0;
            self.pending_actions = Vec::new();
            self.mode = Mode::Idle;
            self.progress = None;
            self.full_text = String::new();
            return Next::Idle;
        }
        self.no_action_streak = 0;
        let ghost old_actions = actions@;
        let action = actions.remove(0);
        assert(actions@ == old_actions.skip(1));
        let label = action_label_of(&action);
        self.note_recent(label);
        let call_id = if tool_calls.len() == 0 {
            copy_str("text_0")
        } else {
            copy_str(tool_calls[0].id.as_str())
        };
        self.last_exec = Some(LastExec { call_id, success: true, message: String::new() });
        self.pending_actions = actions;
        assert(actions_view(self.pending_actions@) =~= acts.skip(1));
        self.mode = Mode::Executing;
        self.progress = Some(cat3("执行 ", action.tool.as_str(), "…"));
        Next::Exec { tool: action.tool, args: action.args }
    }
}


/// The session record of a round: the state, the answer, the first action,
/// what the player typed, and the tokens used.
pub open spec fn round_record(
    turn: u32,
    s: AppState,
    answer: Seq<char>,
    acts: Seq<ParsedAction>,
) -> (u32, Seq<char>, Seq<char>, Seq<char>, Option<Seq<char>>, Option<Seq<char>>, u64, u64) {
    (
        turn,
        crate::app::summary_text(s.game_state),
        s.decision_state_json@,
        answer,
        if acts.len() > 0 {
            Some(action_label(acts[0]))
        } else {
            None
        },
        crate::text::opt_view(s.pending_user_input),
        s.last_usage.prompt_tokens,
        s.last_usage.completion_tokens,
    )
}

pub open spec fn record_view(r: TurnRecord) -> (
    u32,
    Seq<char>,
    Seq<char>,
    Seq<char>,
    Option<Seq<char>>,
    Option<Seq<char>>,
    u64,
    u64,
) {
    (
        r.turn,
        r.state_summary@,
        r.state_json@,
        r.agent_text@,
        crate::text::opt_view(r.action),
        crate::text::opt_view(r.user_input),
        r.input_tokens,
        r.output_tokens,
    )
}

/// The `(id, name, arguments)` of the calls an autonomous answer is recorded
/// with: the native calls, or, when there are none, made-up ids `text_<i>`
/// for the text actions, with their arguments as compact JSON.
pub open spec fn chain_calls_of(actions: Seq<ParsedAction>, tool_calls: Seq<ToolCall>) -> Seq<(Seq<char>, Seq<char>, Seq<char>)> {
    if tool_calls.len() == 0 {
        Seq::new(actions.len(), |i: int| ("text_"@ + crate::text::dec_int(i), actions[i].tool@, json_render(actions[i].args@)))
    } else {
        Seq::new(tool_calls.len(), |i: int| (tool_calls[i].id@, tool_calls[i].name@, tool_calls[i].arguments@))
    }
}

/// A list of `(id, name, arguments)` by its texts.
pub open spec fn triple_views(calls: Seq<(String, String, String)>) -> Seq<(Seq<char>, Seq<char>, Seq<char>)> {
    Seq::new(calls.len(), |i: int| (calls[i].0@, calls[i].1@, calls[i].2@))
}

fn chain_calls(actions: &Vec<ParsedAction>, tool_calls: &Vec<ToolCall>) -> (r: Vec<(String, String, String)>)
    ensures
        triple_views(r@) == chain_calls_of(actions@, tool_calls@),
{
    let mut calls: Vec<(String, String, String)> = Vec::new();
    if tool_calls.len() == 0 {
        let mut i: usize = 0;
        while i < actions.len()
            invariant
                tool_calls@.len() == 0,
                i <= actions@.len(),
                calls@.len() == i,
                triple_views(calls@) == chain_calls_of(actions@, tool_calls@).take(i as int),
            decreases actions@.len() - i,
        {
            let n = crate::text::u64_to_string(i as u64);
            let id = cat2("text_", n.as_str());
            let args = render_json(&actions[i].args);
            let ghost before = calls@;
            let t = (id, copy_str(actions[i].tool.as_str()), args);
            assert((t.0@, t.1@, t.2@) == chain_calls_of(actions@, tool_calls@)[i as int]);
            calls.push(t);
            assert(calls@ == before.push(t));
            assert forall|k: int| 0 <= k < i implies #[trigger] triple_views(calls@)[k]
                == chain_calls_of(actions@, tool_calls@).take(i + 1)[k] by {
                assert(calls@[k] == before[k]);
                assert(triple_views(before)[k] == chain_calls_of(actions@, tool_calls@).take(i as int)[k]);
            }
            assert(triple_views(calls@)[i as int] == chain_calls_of(actions@, tool_calls@).take(i + 1)[i as int]);
            assert(triple_views(calls@) =~= chain_calls_of(actions@, tool_calls@).take(i + 1));
            i = i + 1;
        }
        assert(chain_calls_of(actions@, tool_calls@).take(actions@.len() as int) =~= chain_calls_of(actions@, tool_calls@));
    } else {
        let mut i: usize = 0;
        while i < tool_calls.len()
            invariant
                tool_calls@.len() > 0,
                i <= tool_calls@.len(),
                calls@.len() == i,
                triple_views(calls@) == chain_calls_of(actions@, tool_calls@).take(i as int),
            decreases tool_calls@.len() - i,
        {
            let tc = &tool_calls[i];
            let ghost before = calls@;
            let t = (copy_str(tc.id.as_str()), copy_str(tc.name.as_str()), copy_str(tc.arguments.as_str()));
            assert((t.0@, t.1@, t.2@) == chain_calls_of(actions@, tool_calls@)[i as int]);
            calls.push(t);
            assert(calls@ == before.push(t));
            assert forall|k: int| 0 <= k < i implies #[trigger] triple_views(calls@)[k]
                == chain_calls_of(actions@, tool_calls@).take(i + 1)[k] by {
                assert(calls@[k] == before[k]);
                assert(triple_views(before)[k] == chain_calls_of(actions@, tool_calls@).take(i as int)[k]);
            }
            assert(triple_views(calls@)[i as int] == chain_calls_of(actions@, tool_calls@).take(i + 1)[i as int]);
            assert(triple_views(calls@) =~= chain_calls_of(actions@, tool_calls@).take(i + 1));
            i = i + 1;
        }
        assert(chain_calls_of(actions@, tool_calls@).take(tool_calls@.len() as int) =~= chain_calls_of(actions@, tool_calls@));
    }
    calls
}

/// A tool message: the result of call `id`, with `content`.
pub open spec fn is_tool_message(m: ChatMessage, id: Seq<char>, content: Seq<char>) -> bool {
    &&& m.role@ == "tool"@
    &&& m.content@ == content
    &&& m.tool_calls is None
    &&& m.tool_call_id matches Some(i) && i@ == id
}

/// What the autonomous chain is told after an action: its result, then the
/// new (slimmed) game state.
pub open spec fn state_report(exec_msg: Seq<char>, state_json: Seq<char>) -> Seq<char> {
    "执行结果: "@ + exec_msg + "\n执行后的最新游戏状态:\n"@ + crate::slim::slim_text(state_json)
}

/// The call a state report answers: the last executed call, or `state`.
pub open spec fn report_id(le: Option<LastExec>) -> Seq<char> {
    match le {
        Some(e) => e.call_id@,
        None => "state"@,
    }
}

/// The result the report carries: the last execution's message, or nothing.
pub open spec fn report_msg(le: Option<LastExec>) -> Seq<char> {
    match le {
        Some(e) => e.message@,
        None => Seq::empty(),
    }
}

/// The call a lookup answers in the autonomous chain: the first native
/// call, or `lookup` for a text action.
pub open spec fn lookup_call_id(calls: Seq<ToolCall>) -> Seq<char> {
    if calls.len() > 0 {
        calls[0].id@
    } else {
        "lookup"@
    }
}

/// What a lookup leaves in the lookup record: its entry when it was made,
/// nothing otherwise.
pub open spec fn lookup_record_after(s: AppState, q: Seq<char>, kb: KnowledgeBase) -> Seq<char> {
    if q.len() > 0 && s.lookup_rounds < 3 {
        s.lookup_context@ + lookup_entry(q, smart_result(q, s.game_state, kb).0, smart_result(q, s.game_state, kb).1)
    } else {
        s.lookup_context@
    }
}

/// What the autonomous chain is told after a lookup of `q` from state `s`:
/// that it is done, or that it failed or the limit was reached.
pub open spec fn lookup_reply(s: AppState, q: Seq<char>) -> Seq<char> {
    if q.len() > 0 && s.lookup_rounds < 3 {
        LOOKUP_DONE@
    } else {
        LOOKUP_FAILED@
    }
}

/// The tool calls of a list of `(id, name, arguments)`, as the chat API
/// takes them.
pub open spec fn calls_json_of(calls: Seq<(Seq<char>, Seq<char>, Seq<char>)>) -> Json {
    Json::Array(Seq::new(calls.len(), |i: int| crate::llm::call_json(calls[i].0, calls[i].1, calls[i].2)))
}

/// The assistant message that records the calls of an autonomous answer.
pub open spec fn is_call_message(m: ChatMessage, content: Seq<char>, calls: Seq<(Seq<char>, Seq<char>, Seq<char>)>) -> bool {
    &&& m.role@ == "assistant"@
    &&& m.content@ == content
    &&& m.tool_calls matches Some(tc) && tc@ == calls_json_of(calls)
    &&& m.tool_call_id is None
}

/// The text the assistant message of an answer carries: the answer, or a
/// blank when it has none.
pub open spec fn call_message_text(answer: Seq<char>) -> Seq<char> {
    if answer.len() == 0 {
        " "@
    } else {
        answer
    }
}

/// The lines an answer adds to the history: the answer, when not empty.
pub open spec fn answer_turns(answer: Seq<char>) -> Seq<(bool, Seq<char>)> {
    if answer.len() > 0 {
        seq![(false, answer)]
    } else {
        Seq::empty()
    }
}

impl AppState {
    /// The model finished an answer.  When the game state is no longer the
    /// one decided on, the answer is dropped.  Otherwise its notes, its talk
    /// and its session record are taken, and its first action decides what
    /// follows (see `done_kind`): outside autonomous mode no game action is
    /// executed, and autonomous mode is entered only on the player's yes.
    pub fn on_stream_done(
        &mut self,
        tool_calls: &Vec<ToolCall>,
        current_json: String,
        current_gs: GameState,
        kb: &KnowledgeBase,
        turn: u32,
    ) -> (r: StreamDone)
        requires
            old(self).wf(),
        ensures
            final(self).wf(),
            final(self).full_text@.len() == 0,
            ({
                let valid = current_json@.len() > 0 && current_json@ == old(self).decision_state_json@;
                let acts = answer_actions(tool_calls@, old(self).full_text@);
                let k = done_kind(
                    valid,
                    acts,
                    old(self).auto_mode,
                    old(self).queued_auto_reply,
                    old(self).no_action_streak,
                );
                &&& final(self).auto_mode ==> old(self).auto_mode || k == DoneKind::AutoStartAnswered(
                    true,
                )
                &&& (r.next is Exec ==> old(self).auto_mode && k == DoneKind::Execute)
                &&& (k == DoneKind::Stale ==> {
                    &&& r.record is None
                    &&& r.notes@.len() == 0
                    &&& final(self).auto_mode == old(self).auto_mode
                    &&& final(self).chat@.last().role == MsgRole::System
                    &&& final(self).chat@.last().text@ == STALE_NOTICE@
                    &&& (current_json@.len() > 0 ==> final(self).game_state == current_gs
                        && final(self).last_state_json@ == current_json@)
                    &&& (next_view(r.next) == NextV::Stabilize <==> (old(self).auto_mode
                        && current_json@.len() > 0 && !is_transient(current_gs.state_type)))
                })
                &&& (valid ==> {
                    let ans = answer_of(old(self).full_text@);
                    let n = old(self).chat@.len() as int;
                    let errs = call_errors(tool_calls@);
                    let e = errs.len() as int;
                    let t: int = if old(self).reasoning_text@.len() > 0 { 1 } else { 0 };
                    &&& views(r.notes@) == crate::parse::notes_of(lines(old(self).full_text@))
                    &&& r.record matches Some(rec) && rec.result is None && !rec.success
                        && exists|ps: Seq<ParsedAction>| #[trigger] actions_view(ps) == acts
                            && record_view(rec) == round_record(turn, *old(self), ans, ps)
                            && ((k == DoneKind::Execute || k == DoneKind::AutoStartIgnored) ==> exists|m: ChatMessage|
                                #[trigger] is_call_message(m, call_message_text(ans), chain_calls_of(ps, tool_calls@))
                                && final(self).auto_messages@ == old(self).auto_messages@.push(m))
                            && (k == DoneKind::Execute ==> views(final(self).recent_actions@) == push_recent(
                                views(old(self).recent_actions@),
                                action_label(ps[0]),
                            ))
                            && ((k == DoneKind::Lookup && old(self).auto_mode) ==> exists|m: ChatMessage, t: ChatMessage|
                                #![trigger is_call_message(m, call_message_text(ans), chain_calls_of(ps, tool_calls@)), is_tool_message(t, lookup_call_id(tool_calls@), lookup_reply(*old(self), arg_text(acts[0].args, "query"@)))]
                                is_call_message(m, call_message_text(ans), chain_calls_of(ps, tool_calls@))
                                && is_tool_message(t, lookup_call_id(tool_calls@), lookup_reply(*old(self), arg_text(acts[0].args, "query"@)))
                                && final(self).auto_messages@ == trimmed_chain(old(self).auto_messages@.push(m).push(t)))
                    &&& final(self).pending_user_input is None
                    &&& (crate::parse::plan_of(lines(old(self).full_text@)) is Some ==> (final(self).plan matches Some(p)
                        && p@ == crate::parse::plan_of(lines(old(self).full_text@))->0))
                    &&& final(self).history@.map_values(|x: crate::decide::ChatTurn| turn_line(x))
                        == old(self).history@.map_values(|x: crate::decide::ChatTurn| turn_line(x)) + answer_turns(ans)
                    &&& final(self).chat@.len() >= n + e + t + (if ans.len() > 0 { 1int } else { 0int })
                    &&& final(self).chat@.subrange(0, n as int) == old(self).chat@
                    &&& (forall|j: int| 0 <= j < e ==> (#[trigger] final(self).chat@[n + j]).role == MsgRole::System
                        && final(self).chat@[n + j].text@ == errs[j])
                    &&& (t == 1 ==> final(self).chat@[n + e].role == MsgRole::Thinking
                        && final(self).chat@[n + e].text@ == old(self).reasoning_text@)
                    &&& (ans.len() > 0 ==> final(self).chat@[n + e + t].role == MsgRole::Agent
                        && final(self).chat@[n + e + t].text@ == ans)
                })
                &&& (k == DoneKind::Execute ==> {
                    &&& final(self).auto_mode
                    &&& r.next matches Next::Exec { tool, args } && action_view(
                        ParsedAction { tool, args },
                    ) == acts[0]
                    &&& actions_view(final(self).pending_actions@) == acts.skip(1)
                    &&& final(self).no_action_streak == 0
                    &&& final(self).mode == Mode::Executing
                    &&& exec_started(final(self).last_exec, tool_calls@)
                })
                &&& (k == DoneKind::Veto ==> !final(self).auto_mode && final(self).mode == Mode::Idle
                    && final(self).pending_actions@.len() == 0 && next_view(r.next) == NextV::Idle
                    && final(self).chat@.last().text@ == "⛔ 已否决 "@ + acts[0].tool
                    + "：非自主模式不执行游戏操作。需要操作时请输出 ACTION: auto_start。"@)
                &&& (k == DoneKind::AutoStartAsked ==> {
                    &&& final(self).pending_auto_start matches Some(t) && t@ == arg_text(
                        acts[0].args,
                        "task"@,
                    )
                    &&& !final(self).auto_mode
                    &&& final(self).mode == Mode::PendingConfirm
                    &&& next_view(r.next) == NextV::Idle
                })
                &&& (k == DoneKind::AutoStartAnswered(true) ==> final(self).auto_mode
                    && next_view(r.next) == NextV::Stabilize)
                &&& (k == DoneKind::AutoStartAnswered(false) ==> !final(self).auto_mode
                    && next_view(r.next) == NextV::Idle)
                &&& (k == DoneKind::AutoStartIgnored ==> final(self).auto_mode && next_view(r.next)
                    == NextV::Idle)
                &&& (k == DoneKind::Lookup ==> {
                    let q = arg_text(acts[0].args, "query"@);
                    let ok = q.len() > 0 && old(self).lookup_rounds < 3;
                    &&& final(self).mode == Mode::Streaming
                    &&& final(self).auto_mode == old(self).auto_mode
                    &&& final(self).lookup_context@ == lookup_record_after(*old(self), q, *kb)
                    &&& final(self).lookup_rounds == (if ok {
                        old(self).lookup_rounds + 1
                    } else {
                        old(self).lookup_rounds as int
                    })
                    &&& (old(self).auto_mode ==> next_view(r.next) == NextV::ContinueAuto)
                    &&& (!old(self).auto_mode ==> next_view(r.next) == NextV::Refetch(
                        if ok {
                            LOOKUP_RESUME@
                        } else {
                            LOOKUP_RESUME_FAILED@
                        },
                    ))
                })
                &&& (k == DoneKind::AutoStop ==> {
                    &&& !final(self).auto_mode
                    &&& final(self).mode == Mode::Idle
                    &&& next_view(r.next) == NextV::Idle
                    &&& final(self).pending_actions@.len() == 0
                    &&& (old(self).auto_mode ==> final(self).auto_messages@.len() == 0
                        && final(self).chat@.last().role == MsgRole::System
                        && final(self).chat@.last().text@ == AUTO_STOP_NOTICE@)
                })
                &&& (k == DoneKind::GiveUp ==> {
                    &&& !final(self).auto_mode
                    &&& final(self).task is None
                    &&& final(self).no_action_streak == 0
                    &&& final(self).mode == Mode::Idle
                    &&& next_view(r.next) == NextV::Idle
                    &&& final(self).chat@.last().role == MsgRole::System
                    &&& final(self).chat@.last().text@ == GIVE_UP_NOTICE@
                })
                &&& (k == DoneKind::Nudge ==> final(self).auto_mode && next_view(r.next)
                    == NextV::ContinueAuto && final(self).no_action_streak
                    == old(self).no_action_streak + 1)
                &&& (k == DoneKind::Answered ==> final(self).mode == Mode::Idle && next_view(r.next)
                    == NextV::Idle)
            }),
    {
        let valid = !current_json.as_str().is_empty() && crate::json::str_eq(
            current_json.as_str(),
            self.decision_state_json.as_str(),
        );
        if !valid {
            let next = self.on_stale(current_json, current_gs);
            let notes: Vec<String> = Vec::new();
            assert(views(notes@) =~= Seq::<Seq<char>>::empty());
            return StreamDone { notes, record: None, next };
        }
        let ghost full = self.full_text@;
        let full_text_copy = copy_str(self.full_text.as_str());
        let notes = crate::parse::extract_notes(self.full_text.as_str());
        let (actions, errors) = collect_actions(tool_calls, self.full_text.as_str());
        let ghost ps = actions@;
        let ghost n = old(self).chat@.len() as int;
        let mut i: usize = 0;
        while i < errors.len()
            invariant
                unchanged_but(*old(self), *self, true, false, false, false, false, false),
                old(self).wf(),
                i <= errors@.len(),
                n == old(self).chat@.len(),
                self.chat@.len() == n + i,
                self.chat@.subrange(0, n) == old(self).chat@,
                forall|j: int| 0 <= j < i ==> (#[trigger] self.chat@[n + j]).role == MsgRole::System
                    && self.chat@[n + j].text@ == errors@[j]@,
            decreases errors@.len() - i,
        {
            let ghost before = self.chat@;
            self.chat.push(text_msg(MsgRole::System, copy_str(errors[i].as_str())));
            self.chat_scroll = 0;
            assert(self.chat@.subrange(0, n) =~= before.subrange(0, n));
            assert forall|j: int| 0 <= j < i + 1 implies (#[trigger] self.chat@[n + j]).role == MsgRole::System
                && self.chat@[n + j].text@ == errors@[j]@ by {
                if j < i {
                    assert(self.chat@[n + j] == before[n + j]);
                }
            }
            i = i + 1;
        }
        let ghost c1 = self.chat@;
        let ghost h0 = self.history@;
        let chat_text = answer_text(self.full_text.as_str());
        self.fold_reasoning();
        let ghost c2 = self.chat@;
        assert(c2.subrange(0, c1.len() as int) =~= c1) by {
            if c2.len() > c1.len() {
                assert(c2.drop_last() == c1);
            }
        }
        if !chat_text.as_str().is_empty() {
            self.chat.push(text_msg(MsgRole::Agent, copy_str(chat_text.as_str())));
            self.chat_scroll = 0;
            self.history.push(crate::decide::ChatTurn::Assistant(copy_str(chat_text.as_str())));
            assert(self.chat@.subrange(0, c2.len() as int) =~= c2);
        }
        assert(self.history@.map_values(|x: crate::decide::ChatTurn| turn_line(x))
            =~= h0.map_values(|x: crate::decide::ChatTurn| turn_line(x)) + answer_turns(chat_text@));
        let ghost c3 = self.chat@;
        assert(c3.subrange(0, n) =~= old(self).chat@) by {
            assert(c3.subrange(0, n) =~= c3.subrange(0, c2.len() as int).subrange(0, n));
            assert(c2.subrange(0, n) =~= c2.subrange(0, c1.len() as int).subrange(0, n));
        }
        self.streaming_text = String::new();
        let ghost chain0 = self.auto_messages@;
        let ghost mut pushed: ChatMessage = arbitrary();
        if self.auto_mode && actions.len() > 0 {
            let calls = chain_calls(&actions, tool_calls);
            let content = if chat_text.as_str().is_empty() {
                " "
            } else {
                chat_text.as_str()
            };
            proof {
                reveal_strlit(" ");
            }
            let m = ChatMessage::assistant_tool_calls(content, &calls);
            proof {
                pushed = m;
                assert(crate::llm::calls_json(calls@)->Array_0 =~= calls_json_of(triple_views(calls@))->Array_0);
                assert(crate::llm::calls_json(calls@) == calls_json_of(triple_views(calls@)));
            }
            self.auto_messages.push(m);
            assert(is_call_message(pushed, call_message_text(chat_text@), chain_calls_of(ps, tool_calls@)));
        }
        let action_text = if actions.len() > 0 {
            Some(action_label_of(&actions[0]))
        } else {
            None
        };
        let record = TurnRecord {
            turn,
            state_summary: crate::app::state_summary(&self.game_state),
            state_json: copy_str(self.decision_state_json.as_str()),
            agent_text: chat_text,
            action: action_text,
            result: None,
            success: false,
            user_input: self.pending_user_input.take(),
            input_tokens: self.last_usage.prompt_tokens,
            output_tokens: self.last_usage.completion_tokens,
        };
        assert(actions_view(ps) == answer_actions(tool_calls@, old(self).full_text@));
        assert(record_view(record) == round_record(turn, *old(self), answer_of(old(self).full_text@), ps));
        let declared_plan = crate::parse::extract_plan(full_text_copy.as_str());
        let ghost mid = *self;
        let next = self.act_on_answer(actions, tool_calls, kb);
        match declared_plan {
            Some(p) => {
                self.plan = Some(p);
            },
            None => {},
        }
        proof {
            let c4 = self.chat@;
            assert forall|j: int| 0 <= j < c3.len() implies c4[j] == c3[j] by {
                assert(c4.subrange(0, c3.len() as int)[j] == c4[j]);
            }
            assert(c4.subrange(0, n) =~= old(self).chat@) by {
                assert forall|j: int| 0 <= j < n implies c4.subrange(0, n)[j] == old(self).chat@[j] by {
                    assert(c3.subrange(0, n)[j] == c3[j]);
                }
            }
        }
        self.full_text = String::new();
        proof {
            let acts = answer_actions(tool_calls@, old(self).full_text@);
            let k = done_kind(true, acts, old(self).auto_mode, old(self).queued_auto_reply, old(self).no_action_streak);
            if k == DoneKind::Execute || k == DoneKind::AutoStartIgnored {
                assert(old(self).auto_mode && acts.len() > 0);
                assert(self.auto_messages@ == old(self).auto_messages@.push(pushed));
                assert(is_call_message(pushed, call_message_text(answer_of(old(self).full_text@)), chain_calls_of(ps, tool_calls@)));
            }
            assert(actions_view(ps) == acts);
            if k == DoneKind::Lookup && old(self).auto_mode {
                let q = arg_text(acts[0].args, "query"@);
                assert(lookup_reply(mid, q) == lookup_reply(*old(self), q));
                let t = choose|t: ChatMessage| #[trigger] is_tool_message(t, lookup_call_id(tool_calls@), lookup_reply(mid, q))
                    && self.auto_messages@ == trimmed_chain(mid.auto_messages@.push(t));
                assert(mid.auto_messages@ == old(self).auto_messages@.push(pushed));
                assert(is_call_message(pushed, call_message_text(answer_of(old(self).full_text@)), chain_calls_of(ps, tool_calls@)));
                assert(is_tool_message(t, lookup_call_id(tool_calls@), lookup_reply(*old(self), q)));
            }
            let ans = answer_of(old(self).full_text@);
            let errs = call_errors(tool_calls@);
            let e = errs.len() as int;
            let t: int = if old(self).reasoning_text@.len() > 0 { 1 } else { 0 };
            assert(self.history@.map_values(|x: crate::decide::ChatTurn| turn_line(x))
                == old(self).history@.map_values(|x: crate::decide::ChatTurn| turn_line(x)) + answer_turns(ans));
            assert(self.chat@.len() >= n + e + t + (if ans.len() > 0 { 1int } else { 0int }));
            assert(self.chat@.subrange(0, n as int) == old(self).chat@);
            assert(forall|j: int| 0 <= j < e ==> (#[trigger] self.chat@[n + j]).role == MsgRole::System
                        && self.chat@[n + j].text@ == errs[j]);
            assert(t == 1 ==> self.chat@[n + e].role == MsgRole::Thinking
                        && self.chat@[n + e].text@ == old(self).reasoning_text@);
            assert(ans.len() > 0 ==> self.chat@[n + e + t].role == MsgRole::Agent
                        && self.chat@[n + e + t].text@ == ans);
        }
        StreamDone { notes, record: Some(record), next }
    }
}


impl AppState {
    /// An action was executed.  The queued actions of the round follow while
    /// they succeed and autonomous mode lasts; then, unless the budget is
    /// spent, the agent waits for a stable state.
    pub fn on_exec_done(&mut self, success: bool, message: &str, over_budget: bool, summary: &str) -> (r: Next)
        requires
            old(self).wf(),
            old(self).current_turn < u32::MAX,
        ensures
            final(self).wf(),
            final(self).current_turn == old(self).current_turn + 1,
            final(self).auto_mode == old(self).auto_mode,
            final(self).chat@.len() == old(self).chat@.len() + (if success { 1int } else { 2int }),
            final(self).chat@.subrange(0, old(self).chat@.len() as int) == old(self).chat@,
            final(self).chat@[old(self).chat@.len() as int].role == MsgRole::System,
            final(self).chat@[old(self).chat@.len() as int].text@ == "执行结果: "@ + message@,
            !success ==> final(self).chat@.last().role == MsgRole::System
                && final(self).chat@.last().text@ == "执行失败，停止多步操作。"@,
            final(self).chat_scroll == 0,
            r is Exec ==> old(self).auto_mode && success && old(self).pending_actions@.len() > 0,
            (success && old(self).pending_actions@.len() > 0 && old(self).auto_mode) ==> {
                &&& r matches Next::Exec { tool, args } && tool == old(self).pending_actions@[0].tool
                    && args == old(self).pending_actions@[0].args
                &&& final(self).pending_actions@ == old(self).pending_actions@.skip(1)
                &&& views(final(self).recent_actions@) == push_recent(
                    views(old(self).recent_actions@),
                    action_label(old(self).pending_actions@[0]),
                )
                &&& final(self).mode == Mode::Executing
            },
            !(success && old(self).pending_actions@.len() > 0 && old(self).auto_mode) ==> {
                &&& (!success ==> final(self).pending_actions@.len() == 0)
                &&& (over_budget ==> final(self).finished && final(self).mode == Mode::Idle
                    && next_view(r) == NextV::Idle)
                &&& (!over_budget ==> final(self).mode == Mode::FetchingState && next_view(r)
                    == NextV::Stabilize)
            },
            match (old(self).last_exec, final(self).last_exec) {
                (Some(a), Some(b)) => b.call_id == a.call_id && b.message@ == message@,
                (None, None) => true,
                _ => false,
            },
    {
        self.current_turn = self.current_turn + 1;
        self.chat.push(text_msg(MsgRole::System, cat2("执行结果: ", message)));
        self.chat_scroll = 0;
        assert(self.chat@.subrange(0, old(self).chat@.len() as int) =~= old(self).chat@);
        let ghost c1 = self.chat@;
        match self.last_exec.take() {
            Some(le) => {
                self.last_exec = Some(
                    LastExec { call_id: le.call_id, success: le.success, message: copy_str(message) },
                );
            },
            None => {},
        }
        if !success {
            self.chat.push(sys_msg("执行失败，停止多步操作。"));
            assert(self.chat@.subrange(0, old(self).chat@.len() as int) =~= old(self).chat@);
            assert(self.chat@[old(self).chat@.len() as int] == c1[old(self).chat@.len() as int]);
            self.pending_actions = Vec::new();
        }
        if success && self.pending_actions.len() > 0 && self.auto_mode {
            let ghost before = self.pending_actions@;
            let next = self.pending_actions.remove(0);
            assert(self.pending_actions@ =~= before.skip(1));
            let label = action_label_of(&next);
            self.note_recent(label);
            self.mode = Mode::Executing;
            self.progress = Some(cat3("执行 ", next.tool.as_str(), "…"));
            return Next::Exec { tool: next.tool, args: next.args };
        }
        if over_budget {
            self.finished = true;
            self.progress = Some(cat2("预算超限: ", summary));
            self.mode = Mode::Idle;
            return Next::Idle;
        }
        self.mode = Mode::FetchingState;
        self.progress = Some(copy_str("等待状态稳定…"));
        Next::Stabilize
    }

    /// A stable game state after an action.  A finished game ends autonomous
    /// mode; a state still loading is waited out (five times at most); in
    /// autonomous mode, within the round limit, a mechanical move is made
    /// or the model is asked with the new state.
    pub fn on_state_ready(&mut self, state_json: String, gs: GameState, max_turns: u32) -> (r: Next)
        requires
            old(self).wf(),
        ensures
            final(self).wf(),
            final(self).game_state == gs,
            final(self).last_state_json@ == state_json@,
            final(self).auto_mode ==> old(self).auto_mode,
            r is Exec ==> old(self).auto_mode && final(self).auto_mode,
            gs.state_type == StateType::GameOver ==> {
                &&& final(self).finished
                &&& !final(self).auto_mode
                &&& final(self).mode == Mode::Idle
                &&& next_view(r) == NextV::Idle
            },
            gs.state_type == StateType::Unknown ==> {
                &&& (old(self).auto_mode && old(self).unknown_streak + 1 >= 5) ==> !final(self).auto_mode && final(self).unknown_streak == 0 && next_view(r) == NextV::Idle
                &&& (old(self).auto_mode && old(self).unknown_streak + 1 < 5) ==> final(self).auto_mode && final(self).unknown_streak == old(self).unknown_streak + 1
                    && next_view(r) == NextV::Stabilize
                &&& !old(self).auto_mode ==> next_view(r) == NextV::Idle && final(self).mode
                    == Mode::Idle
            },
            !(gs.state_type == StateType::GameOver || gs.state_type == StateType::Unknown) ==> {
                &&& final(self).unknown_streak == 0
                &&& (!old(self).auto_mode ==> next_view(r) == NextV::Idle && final(self).mode
                    == Mode::Idle)
                &&& (old(self).auto_mode && max_turns > 0 && old(self).current_turn >= max_turns)
                    ==> !final(self).auto_mode && final(self).finished && next_view(r)
                    == NextV::Idle
                &&& (old(self).auto_mode && !(max_turns > 0 && old(self).current_turn
                    >= max_turns)) ==> {
                    &&& final(self).auto_mode
                    &&& match reflex_of(gs) {
                        Some((t, a)) => next_view(r) == NextV::Exec(t, a) && final(self).mode
                            == Mode::Executing,
                        None => {
                            &&& next_view(r) == NextV::ContinueAuto
                            &&& final(self).mode == Mode::Streaming
                            &&& final(self).last_exec is None
                            &&& final(self).progress matches Some(p) && p@ == "分析中…"@
                            &&& final(self).full_text@.len() == 0
                            &&& exists|m: ChatMessage| #[trigger] is_tool_message(
                                m,
                                report_id(old(self).last_exec),
                                state_report(report_msg(old(self).last_exec), state_json@),
                            ) && final(self).auto_messages@ == trimmed_chain(
                                old(self).auto_messages@.push(m),
                            )
                        },
                    }
                }
            },
    {
        let transient_type = gs.state_type;
        self.game_state = gs;
        self.last_state_json = copy_str(state_json.as_str());
        if transient_type == StateType::GameOver {
            self.finished = true;
            if self.auto_mode {
                self.auto_mode = false;
                self.task = None;
                self.chat.push(sys_msg("游戏结束，自主模式结束。"));
                self.chat_scroll = 0;
            }
            self.plan = None;
            self.recent_actions = Vec::new();
            self.progress = Some(copy_str("游戏结束"));
            self.mode = Mode::Idle;
            return Next::Idle;
        }
        if transient_type == StateType::Unknown {
            if self.auto_mode {
                self.unknown_streak = self.unknown_streak + 1;
                if self.unknown_streak >= 5 {
                    self.auto_mode = false;
                    self.task = None;
                    self.unknown_streak = 0;
                    self.chat.push(sys_msg("自主模式暂停：游戏长时间未加载完成。输入任意消息恢复。"));
                    self.chat_scroll = 0;
                    self.mode = Mode::Idle;
                    self.progress = Some(copy_str("等待游戏加载…"));
                    return Next::Idle;
                }
                self.mode = Mode::FetchingState;
                let n = crate::text::u64_to_string(self.unknown_streak as u64);
                self.progress = Some(cat3("等待游戏加载（重试 ", n.as_str(), "/5）…"));
                return Next::Stabilize;
            }
            self.mode = Mode::Idle;
            self.progress = Some(copy_str("等待游戏加载…"));
            return Next::Idle;
        }
        self.unknown_streak = 0;
        if !self.auto_mode {
            self.mode = Mode::Idle;
            self.progress = None;
            return Next::Idle;
        }
        if max_turns > 0 && self.current_turn >= max_turns {
            self.auto_mode = false;
            self.task = None;
            self.finished = true;
            let m = crate::text::u64_to_string(max_turns as u64);
            self.progress = Some(cat2("已达最大轮数 ", m.as_str()));
            self.chat.push(text_msg(MsgRole::System, cat3("已达最大轮数 ", m.as_str(), "，自主模式结束。")));
            self.chat_scroll = 0;
            self.mode = Mode::Idle;
            return Next::Idle;
        }
        match try_reflex_action(&self.game_state) {
            Some((tool, args)) => {
                self.mode = Mode::Executing;
                self.progress = Some(cat3("执行 ", tool.as_str(), "…"));
                return Next::Exec { tool, args };
            },
            None => {},
        }
        let ghost le0 = self.last_exec;
        let ghost chain0 = self.auto_messages@;
        let (tool_id, exec_msg) = match self.last_exec.take() {
            Some(le) => (le.call_id, le.message),
            None => (copy_str("state"), String::new()),
        };
        assert(tool_id@ == report_id(le0) && exec_msg@ == report_msg(le0));
        let slim = crate::slim::slim_state_json(state_json.as_str());
        let mut content = cat3("执行结果: ", exec_msg.as_str(), "\n执行后的最新游戏状态:\n");
        push_str(&mut content, slim.as_str());
        assert(content@ =~= state_report(report_msg(le0), state_json@));
        let msg = ChatMessage::tool(tool_id.as_str(), content.as_str());
        let ghost pushed = msg;
        self.auto_messages.push(msg);
        assert(self.auto_messages@ == chain0.push(pushed));
        self.trim_auto_chain();
        assert(is_tool_message(pushed, report_id(le0), state_report(report_msg(le0), state_json@)));
        self.mode = Mode::Streaming;
        self.progress = Some(copy_str("分析中…"));
        self.full_text = String::new();
        Next::ContinueAuto
    }
}

// ---------------------------------------------------------------------------
// Resuming a stored session
// ---------------------------------------------------------------------------

/// The lines of one stored round: the player's words, if any, then the
/// answer, if not empty; `true` marks the player's.
pub open spec fn round_lines(t: TurnRecord) -> Seq<(bool, Seq<char>)> {
    let u: Seq<(bool, Seq<char>)> = match t.user_input {
        Some(x) => seq![(true, x@)],
        None => Seq::empty(),
    };
    let a: Seq<(bool, Seq<char>)> = if t.agent_text@.len() > 0 {
        seq![(false, t.agent_text@)]
    } else {
        Seq::empty()
    };
    u + a
}

/// The lines of stored rounds, in order.
pub open spec fn rounds_lines(turns: Seq<TurnRecord>) -> Seq<(bool, Seq<char>)>
    decreases turns.len(),
{
    if turns.len() == 0 {
        Seq::empty()
    } else {
        rounds_lines(turns.drop_last()) + round_lines(turns.last())
    }
}

/// A history turn as a line: `true` marks the player's.
pub open spec fn turn_line(t: crate::decide::ChatTurn) -> (bool, Seq<char>) {
    match t {
        crate::decide::ChatTurn::User(s) => (true, s@),
        crate::decide::ChatTurn::Assistant(s) => (false, s@),
    }
}

/// A chat entry by its role and text.
pub open spec fn chat_line(m: ChatMsg) -> (MsgRole, Seq<char>) {
    (m.role, m.text@)
}

/// A line of a stored round as a chat entry: the player's, or the agent's.
pub open spec fn line_entry(l: (bool, Seq<char>)) -> (MsgRole, Seq<char>) {
    (if l.0 {
        MsgRole::User
    } else {
        MsgRole::Agent
    }, l.1)
}

impl AppState {
    /// Adds the lines of one stored round to the history and the conversation.
    fn resume_round(&mut self, t: &TurnRecord)
        ensures
            final(self).history@.map_values(|x: crate::decide::ChatTurn| turn_line(x))
                == old(self).history@.map_values(|x: crate::decide::ChatTurn| turn_line(x)) + round_lines(*t),
            final(self).chat@.map_values(|m: ChatMsg| chat_line(m))
                == old(self).chat@.map_values(|m: ChatMsg| chat_line(m))
                + round_lines(*t).map_values(|l: (bool, Seq<char>)| line_entry(l)),
            *final(self) == (AppState {
                history: final(self).history,
                chat: final(self).chat,
                chat_scroll: final(self).chat_scroll,
                ..*old(self)
            }),
    {
        let ghost h0 = self.history@;
        let ghost c0 = self.chat@;
        let ghost ut: Seq<(bool, Seq<char>)> = if t.user_input is Some {
            seq![(true, t.user_input->0@)]
        } else {
            Seq::empty()
        };
        let ghost at: Seq<(bool, Seq<char>)> = if t.agent_text@.len() > 0 {
            seq![(false, t.agent_text@)]
        } else {
            Seq::empty()
        };
        match &t.user_input {
            Some(u) => {
                self.history.push(crate::decide::ChatTurn::User(copy_str(u.as_str())));
                self.push_chat(MsgRole::User, copy_str(u.as_str()));
            },
            None => {},
        }
        assert(self.history@.map_values(|x: crate::decide::ChatTurn| turn_line(x))
            =~= h0.map_values(|x: crate::decide::ChatTurn| turn_line(x)) + ut);
        assert(self.chat@.map_values(|m: ChatMsg| chat_line(m))
            =~= c0.map_values(|m: ChatMsg| chat_line(m)) + ut.map_values(|l: (bool, Seq<char>)| line_entry(l)));
        let ghost h1 = self.history@;
        let ghost c1 = self.chat@;
        if !t.agent_text.as_str().is_empty() {
            self.history.push(crate::decide::ChatTurn::Assistant(copy_str(t.agent_text.as_str())));
            self.push_chat(MsgRole::Agent, copy_str(t.agent_text.as_str()));
        }
        assert(self.history@.map_values(|x: crate::decide::ChatTurn| turn_line(x))
            =~= h1.map_values(|x: crate::decide::ChatTurn| turn_line(x)) + at);
        assert(self.chat@.map_values(|m: ChatMsg| chat_line(m))
            =~= c1.map_values(|m: ChatMsg| chat_line(m)) + at.map_values(|l: (bool, Seq<char>)| line_entry(l)));
        assert(round_lines(*t) =~= ut + at);
        assert((ut + at).map_values(|l: (bool, Seq<char>)| line_entry(l))
            =~= ut.map_values(|l: (bool, Seq<char>)| line_entry(l)) + at.map_values(|l: (bool, Seq<char>)| line_entry(l)));
        assert(h0.map_values(|x: crate::decide::ChatTurn| turn_line(x)) + ut + at
            =~= h0.map_values(|x: crate::decide::ChatTurn| turn_line(x)) + (ut + at));
        assert(c0.map_values(|m: ChatMsg| chat_line(m)) + ut.map_values(|l: (bool, Seq<char>)| line_entry(l))
            + at.map_values(|l: (bool, Seq<char>)| line_entry(l))
            =~= c0.map_values(|m: ChatMsg| chat_line(m))
            + (ut.map_values(|l: (bool, Seq<char>)| line_entry(l)) + at.map_values(|l: (bool, Seq<char>)| line_entry(l))));
    }

    /// Takes up a stored session: its token totals, and the words of its
    /// rounds both in the model's history and in the conversation panel; the
    /// turn counter continues from the number of rounds.
    pub fn resume(&mut self, turns: &Vec<TurnRecord>, total_input: u64, total_output: u64)
        ensures
            final(self).history@.map_values(|t: crate::decide::ChatTurn| turn_line(t))
                == old(self).history@.map_values(|t: crate::decide::ChatTurn| turn_line(t))
                + rounds_lines(turns@),
            final(self).chat@.map_values(|m: ChatMsg| chat_line(m))
                == old(self).chat@.map_values(|m: ChatMsg| chat_line(m))
                + rounds_lines(turns@).map_values(|l: (bool, Seq<char>)| line_entry(l)),
            *final(self) == (AppState {
                history: final(self).history,
                chat: final(self).chat,
                chat_scroll: final(self).chat_scroll,
                total_input,
                total_output,
                current_turn: turns@.len() as u32,
                ..*old(self)
            }),
    {
        self.total_input = total_input;
        self.total_output = total_output;
        let ghost h0 = old(self).history@.map_values(|t: crate::decide::ChatTurn| turn_line(t));
        let ghost c0 = old(self).chat@.map_values(|m: ChatMsg| chat_line(m));
        let mut i: usize = 0;
        assert(turns@.take(0) =~= Seq::<TurnRecord>::empty());
        assert(h0 + rounds_lines(turns@.take(0)) =~= h0);
        assert(c0 + rounds_lines(turns@.take(0)).map_values(|l: (bool, Seq<char>)| line_entry(l)) =~= c0);
        while i < turns.len()
            invariant
                i <= turns@.len(),
                self.history@.map_values(|t: crate::decide::ChatTurn| turn_line(t))
                    == h0 + rounds_lines(turns@.take(i as int)),
                self.chat@.map_values(|m: ChatMsg| chat_line(m))
                    == c0 + rounds_lines(turns@.take(i as int)).map_values(|l: (bool, Seq<char>)| line_entry(l)),
                *self == (AppState {
                    history: self.history,
                    chat: self.chat,
                    chat_scroll: self.chat_scroll,
                    total_input,
                    total_output,
                    ..*old(self)
                }),
            decreases turns@.len() - i,
        {
            let ghost r0 = rounds_lines(turns@.take(i as int));
            self.resume_round(&turns[i]);
            proof {
                let tk1 = turns@.take(i + 1);
                assert(tk1.drop_last() =~= turns@.take(i as int));
                let rl = round_lines(turns@[i as int]);
                assert(rounds_lines(tk1) == r0 + rl);
                assert(h0 + r0 + rl =~= h0 + (r0 + rl));
                assert((r0 + rl).map_values(|l: (bool, Seq<char>)| line_entry(l))
                    =~= r0.map_values(|l: (bool, Seq<char>)| line_entry(l)) + rl.map_values(|l: (bool, Seq<char>)| line_entry(l)));
                assert(c0 + r0.map_values(|l: (bool, Seq<char>)| line_entry(l)) + rl.map_values(|l: (bool, Seq<char>)| line_entry(l))
                    =~= c0 + (r0.map_values(|l: (bool, Seq<char>)| line_entry(l)) + rl.map_values(|l: (bool, Seq<char>)| line_entry(l))));
            }
            i = i + 1;
        }
        assert(turns@.take(turns@.len() as int) =~= turns@);
        self.current_turn = turns.len() as u32;
    }
}

// ---------------------------------------------------------------------------
// Waiting for a stable game state
// ---------------------------------------------------------------------------

/// Where waiting for a stable game state stands after some reads.
#[derive(Debug)]
pub enum Settle {
    /// The state is stable: report it with `on_state_ready`.
    Ready(String),
    /// The two reads differ: wait a little and read once more.
    ReadAgain,
    /// Reading failed: report this message as an error.
    Failed(String),
}

/// The report of a failed read.
pub open spec fn read_failure(e: Seq<char>) -> Seq<char> {
    "取状态失败: "@ + e
}

fn failed_read(e: &str) -> (r: Settle)
    ensures
        r matches Settle::Failed(m) && m@ == read_failure(e@),
{
    let mut m = copy_str("取状态失败: ");
    push_str(&mut m, e);
    Settle::Failed(m)
}

/// What two reads of the game state, a moment apart, lead to: two equal
/// states are stable; two different ones ask for a third read; a second read
/// that failed leaves the first; a first read that failed is reported.
pub fn settle_two_reads(first: Result<String, String>, second: Result<String, String>) -> (r: Settle)
    ensures
        match (first, second) {
            (Ok(a), Ok(b)) => if a@ == b@ {
                r matches Settle::Ready(s) && s@ == a@
            } else {
                r is ReadAgain
            },
            (Ok(a), Err(_)) => r matches Settle::Ready(s) && s@ == a@,
            (Err(e), _) => r matches Settle::Failed(m) && m@ == read_failure(e@),
        },
{
    match (first, second) {
        (Ok(a), Ok(b)) => if crate::json::str_eq(a.as_str(), b.as_str()) {
            Settle::Ready(a)
        } else {
            Settle::ReadAgain
        },
        (Ok(a), Err(_)) => Settle::Ready(a),
        (Err(e), _) => failed_read(e.as_str()),
    }
}

/// What the third read leads to: its state, or the report of its failure.
pub fn settle_third_read(third: Result<String, String>) -> (r: Settle)
    ensures
        match third {
            Ok(c) => r matches Settle::Ready(s) && s@ == c@,
            Err(e) => r matches Settle::Failed(m) && m@ == read_failure(e@),
        },
{
    match third {
        Ok(c) => Settle::Ready(c),
        Err(e) => failed_read(e.as_str()),
    }
}

} // verus!
