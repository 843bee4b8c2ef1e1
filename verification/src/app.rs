//! The state of the interactive agent: the conversation, the stream being
//! read, the autonomous-mode bookkeeping and the input line; and the text
//! the state panel and the status line show for a game state.
use vstd::prelude::*;

use crate::decide::ChatTurn;
use crate::llm::{ChatMessage, Usage};
use crate::model::{
    Card, CardReward, CardSelect, Enemy, GameState, MapNextOption, Player, RewardItem, StateType,
    state_type_name,
};
use crate::parse::ParsedAction;
use crate::text::{
    char_utf8_len, copy_str, dec_int, i64_to_string, is_ascii_char, push_char, push_str,
    utf8_len, views,
};

verus! {

/// Who a chat entry is from.
#[derive(Debug, Clone, Copy, PartialEq, Eq, Structural)]
pub enum MsgRole {
    User,
    Agent,
    System,
    /// The model's reasoning, kept after the answer and shown dimmed.
    Thinking,
}

/// One entry of the conversation panel.
#[derive(Debug, Clone)]
pub struct ChatMsg {
    pub role: MsgRole,
    pub text: String,
}

/// What the agent is doing.
#[derive(Debug, Clone, Copy, PartialEq, Eq, Structural)]
pub enum Mode {
    Idle,
    FetchingState,
    Streaming,
    Executing,
    PendingConfirm,
}

/// The colour of the status line.
#[derive(Debug, Clone, Copy, PartialEq, Eq, Structural)]
pub enum StatusColor {
    Yellow,
    Green,
    Cyan,
}

/// The last action sent to the game: the tool call it answers and what the
/// game replied.
#[derive(Debug, Clone)]
pub struct LastExec {
    pub call_id: String,
    pub success: bool,
    pub message: String,
}

/// The state of the interactive agent.
pub struct AppState {
    pub game_state: GameState,
    pub chat: Vec<ChatMsg>,
    /// The answer streamed so far.
    pub streaming_text: String,
    /// The reasoning streamed so far.
    pub reasoning_text: String,
    /// The whole answer of the current stream, read for actions and notes.
    pub full_text: String,
    pub current_turn: u32,
    pub total_input: u64,
    pub total_output: u64,
    pub last_usage: Usage,
    pub progress: Option<String>,
    pub show_thinking: bool,
    pub zh: bool,
    pub finished: bool,
    /// Whether action lines are carried out when the player asks for them.
    pub execute_actions: bool,
    /// Autonomous mode: the agent acts on its own until the task is done or
    /// the player stops it.
    pub auto_mode: bool,
    /// The task of the autonomous mode, in the player's words.
    pub task: Option<String>,
    pub session_id: String,
    /// The last state JSON read.
    pub last_state_json: String,
    /// The state JSON the current decision was made on.
    pub decision_state_json: String,
    pub pending_action: Option<String>,
    pub input: String,
    /// The input cursor, in bytes.
    pub cursor: usize,
    /// How far the conversation panel is scrolled up (0: at the bottom).
    pub chat_scroll: u16,
    pub mode: Mode,
    /// A request of the model to enter autonomous mode, waiting for the player.
    pub pending_auto_start: Option<String>,
    /// The player's answer to such a request, given while the model still streamed.
    pub queued_auto_reply: Option<bool>,
    /// The player input the next session record belongs to.
    pub pending_user_input: Option<String>,
    /// Autonomous rounds in a row that produced no action.
    pub no_action_streak: u32,
    /// Stable states in a row that were still loading.
    pub unknown_streak: u32,
    /// The plan the model declared.
    pub plan: Option<String>,
    /// The actions executed lately (at most five).
    pub recent_actions: Vec<String>,
    /// The actions still to execute in this round.
    pub pending_actions: Vec<ParsedAction>,
    pub last_exec: Option<LastExec>,
    /// Knowledge lookups made for the current task.
    pub lookup_rounds: u32,
    /// The results of those lookups, shown to the model.
    pub lookup_context: String,
    /// The messages of the autonomous chain.
    pub auto_messages: Vec<ChatMessage>,
    /// The conversation as the model sees it.
    pub history: Vec<ChatTurn>,
}

impl AppState {
    /// The bookkeeping every operation keeps: at most five recent actions,
    /// fewer than three idle and five loading rounds in a row, at most three
    /// lookups per task, and the cursor at the end of the input.
    pub open spec fn wf(&self) -> bool {
        &&& self.recent_actions@.len() <= 5
        &&& self.no_action_streak < 3
        &&& self.unknown_streak < 5
        &&& self.lookup_rounds <= 3
        &&& self.cursor == utf8_len(self.input@)
    }

    /// A fresh state.
    pub fn new(zh: bool) -> (r: AppState)
        ensures
            r.wf(),
            r.zh == zh,
            r.mode == Mode::Idle,
            !r.auto_mode,
            !r.finished,
            !r.show_thinking,
            r.chat@.len() == 0,
            r.input@.len() == 0,
            r.task is None,
            r.progress is None,
            r.game_state.state_type == StateType::Menu,
    {
        AppState {
            game_state: GameState::empty(),
            chat: Vec::new(),
            streaming_text: String::new(),
            reasoning_text: String::new(),
            full_text: String::new(),
            current_turn: 0,
            total_input: 0,
            total_output: 0,
            last_usage: Usage::zero(),
            progress: None,
            show_thinking: false,
            zh,
            finished: false,
            execute_actions: false,
            auto_mode: false,
            task: None,
            session_id: String::new(),
            last_state_json: String::new(),
            decision_state_json: String::new(),
            pending_action: None,
            input: String::new(),
            cursor: 0,
            chat_scroll: 0,
            mode: Mode::Idle,
            pending_auto_start: None,
            queued_auto_reply: None,
            pending_user_input: None,
            no_action_streak: 0,
            unknown_streak: 0,
            plan: None,
            recent_actions: Vec::new(),
            pending_actions: Vec::new(),
            last_exec: None,
            lookup_rounds: 0,
            lookup_context: String::new(),
            auto_messages: Vec::new(),
            history: Vec::new(),
        }
    }

    pub fn toggle_thinking(&mut self)
        ensures
            *final(self) == (AppState { show_thinking: !old(self).show_thinking, ..*old(self) }),
    {
        self.show_thinking = !self.show_thinking;
    }

    /// Yellow when finished, green while something is in progress, cyan otherwise.
    pub fn status_color(&self) -> (r: StatusColor)
        ensures
            r == (if self.finished {
                StatusColor::Yellow
            } else if self.progress is Some {
                StatusColor::Green
            } else {
                StatusColor::Cyan
            }),
    {
        if self.finished {
            StatusColor::Yellow
        } else if self.progress.is_some() {
            StatusColor::Green
        } else {
            StatusColor::Cyan
        }
    }

    /// Types a character at the cursor.
    pub fn input_char(&mut self, c: char)
        requires
            old(self).cursor == utf8_len(old(self).input@),
            old(self).cursor + 4 <= usize::MAX,
        ensures
            final(self).input@ == old(self).input@.push(c),
            final(self).cursor == old(self).cursor + char_utf8_len(c),
            final(self).cursor == utf8_len(final(self).input@),
            *final(self) == (AppState { input: final(self).input, cursor: final(self).cursor, ..*old(self) }),
    {
        let ghost before = self.input@;
        push_char(&mut self.input, c);
        self.cursor = self.cursor + char_len_utf8(c);
        assert(self.input@.drop_last() =~= before);
    }

    /// Deletes the character before the cursor.
    pub fn backspace(&mut self)
        requires
            old(self).cursor == utf8_len(old(self).input@),
        ensures
            final(self).input@ == (if old(self).input@.len() > 0 {
                old(self).input@.drop_last()
            } else {
                old(self).input@
            }),
            final(self).cursor == utf8_len(final(self).input@),
            *final(self) == (AppState { input: final(self).input, cursor: final(self).cursor, ..*old(self) }),
    {
        if self.cursor > 0 {
            let v = crate::text::chars_of(self.input.as_str());
            if v.len() > 0 {
                let last = v[v.len() - 1];
                let rest = crate::text::slice_vec(&v, 0, v.len() - 1);
                assert(rest@ =~= v@.drop_last());
                self.cursor = self.cursor - char_len_utf8(last);
                self.input = crate::text::string_from_chars(rest.as_slice());
            }
        } else {
            proof {
                crate::text::lemma_utf8_len_at_least_len(self.input@);
            }
        }
    }

    /// Takes the input line, leaving it empty.
    pub fn submit(&mut self) -> (r: String)
        ensures
            r@ == old(self).input@,
            final(self).input@.len() == 0,
            final(self).cursor == 0,
            *final(self) == (AppState { input: final(self).input, cursor: 0, ..*old(self) }),
    {
        let text = copy_str(self.input.as_str());
        self.input = String::new();
        self.cursor = 0;
        text
    }

    /// Adds a chat entry and scrolls to the bottom.
    pub fn push_chat(&mut self, role: MsgRole, text: String)
        ensures
            final(self).chat@.len() == old(self).chat@.len() + 1,
            final(self).chat@.drop_last() == old(self).chat@,
            final(self).chat@.last().role == role,
            final(self).chat@.last().text@ == text@,
            final(self).chat_scroll == 0,
            *final(self) == (AppState { chat: final(self).chat, chat_scroll: 0, ..*old(self) }),
    {
        self.chat.push(ChatMsg { role, text });
        self.chat_scroll = 0;
        assert(self.chat@.drop_last() =~= old(self).chat@);
    }

    /// The conversation panel scrolls back by three lines, at most to 1002.
    pub fn scroll_up(&mut self)
        ensures
            *final(self) == (AppState {
                chat_scroll: if old(self).chat_scroll < 1000 {
                    (old(self).chat_scroll + 3) as u16
                } else {
                    old(self).chat_scroll
                },
                ..*old(self)
            }),
    {
        if self.chat_scroll < 1000 {
            self.chat_scroll = self.chat_scroll + 3;
        }
    }

    /// The conversation panel scrolls forward by three lines, down to the bottom.
    pub fn scroll_down(&mut self)
        ensures
            *final(self) == (AppState {
                chat_scroll: if old(self).chat_scroll >= 3 {
                    (old(self).chat_scroll - 3) as u16
                } else {
                    0
                },
                ..*old(self)
            }),
    {
        self.chat_scroll = if self.chat_scroll >= 3 {
            self.chat_scroll - 3
        } else {
            0
        };
    }

    /// A background failure is shown as a system entry and the agent goes idle.
    pub fn on_error(&mut self, message: String)
        ensures
            final(self).chat@.len() == old(self).chat@.len() + 1,
            final(self).chat@.drop_last() == old(self).chat@,
            final(self).chat@.last().role == MsgRole::System,
            final(self).chat@.last().text@ == message@,
            *final(self) == (AppState {
                chat: final(self).chat,
                chat_scroll: 0,
                mode: Mode::Idle,
                progress: None,
                ..*old(self)
            }),
    {
        self.push_chat(MsgRole::System, message);
        self.mode = Mode::Idle;
        self.progress = None;
    }
}

/// The input line after typing `c` at its end and deleting the character
/// before the cursor is the line as it was, with the cursor where it was;
/// deleting at the start of an empty line changes nothing.
pub proof fn lemma_backspace_undoes_input(input: Seq<char>, c: char)
    ensures
        ({
            let typed = input.push(c);
            let back = if typed.len() > 0 { typed.drop_last() } else { typed };
            back == input && utf8_len(back) == utf8_len(input)
        }),
        ({
            let back = if input.len() > 0 { input.drop_last() } else { input };
            utf8_len(input) == 0 ==> back == input
        }),
{
    assert(input.push(c).drop_last() =~= input);
    crate::text::lemma_utf8_len_at_least_len(input);
}

/// `char::len_utf8`.
pub fn char_len_utf8(c: char) -> (r: usize)
    ensures
        r == char_utf8_len(c),
{
    let u = c as u32;
    if u < 0x80 {
        1
    } else if u < 0x800 {
        2
    } else if u < 0x10000 {
        3
    } else {
        4
    }
}

// ---------------------------------------------------------------------------
// Display width
// ---------------------------------------------------------------------------

/// The wide (CJK) characters: Hangul Jamo, the CJK radicals, symbols and
/// punctuation, kana, the CJK ideographs, Yi, Hangul syllables, the CJK
/// compatibility ideographs and forms, and the full-width forms.
pub open spec fn is_wide(c: char) -> bool {
    let u = c as u32;
    ||| 0x1100 <= u <= 0x115F
    ||| 0x2E80 <= u <= 0x303E
    ||| 0x3041 <= u <= 0x33FF
    ||| 0x3400 <= u <= 0x4DBF
    ||| 0x4E00 <= u <= 0x9FFF
    ||| 0xA000 <= u <= 0xA4CF
    ||| 0xAC00 <= u <= 0xD7A3
    ||| 0xF900 <= u <= 0xFAFF
    ||| 0xFE30 <= u <= 0xFE4F
    ||| 0xFF00 <= u <= 0xFF60
    ||| 0xFFE0 <= u <= 0xFFE6
    ||| 0x20000 <= u <= 0x3FFFD
}

/// The columns a character takes: two for a wide (CJK) character, one for
/// ASCII and anything else.
pub open spec fn char_width(c: char) -> nat {
    if is_wide(c) {
        2
    } else {
        1
    }
}

/// The columns a character takes.
pub fn char_columns(c: char) -> (r: usize)
    ensures
        r == char_width(c),
{
    let u = c as u32;
    if (0x1100 <= u && u <= 0x115F) || (0x2E80 <= u && u <= 0x303E) || (0x3041 <= u && u <= 0x33FF)
        || (0x3400 <= u && u <= 0x4DBF) || (0x4E00 <= u && u <= 0x9FFF) || (0xA000 <= u && u
        <= 0xA4CF) || (0xAC00 <= u && u <= 0xD7A3) || (0xF900 <= u && u <= 0xFAFF) || (0xFE30
        <= u && u <= 0xFE4F) || (0xFF00 <= u && u <= 0xFF60) || (0xFFE0 <= u && u <= 0xFFE6)
        || (0x20000 <= u && u <= 0x3FFFD) {
        2
    } else {
        1
    }
}

/// The columns a text takes.
pub open spec fn disp_width(s: Seq<char>) -> nat
    decreases s.len(),
{
    if s.len() == 0 {
        0
    } else {
        disp_width(s.drop_last()) + char_width(s.last())
    }
}

/// A prefix is no wider than the whole text.
pub proof fn lemma_disp_width_mono(s: Seq<char>, k: int)
    requires
        0 <= k <= s.len(),
    ensures
        disp_width(s.take(k)) <= disp_width(s),
    decreases s.len() - k,
{
    if k < s.len() {
        let t = s.take(k + 1);
        assert(t.drop_last() =~= s.take(k));
        lemma_disp_width_mono(s, k + 1);
    } else {
        assert(s.take(k) =~= s);
    }
}

/// The width of a text in terminal columns: two for each wide (CJK)
/// character, one for ASCII and any other character.
pub fn display_width(s: &str) -> (r: u16)
    requires
        disp_width(s@) <= u16::MAX,
    ensures
        r == disp_width(s@),
{
    let v = crate::text::chars_of(s);
    let mut w: u16 = 0;
    let mut i: usize = 0;
    while i < v.len()
        invariant
            v@ == s@,
            disp_width(s@) <= u16::MAX,
            i <= v@.len(),
            w == disp_width(v@.take(i as int)),
        decreases v@.len() - i,
    {
        proof {
            let t = v@.take(i + 1);
            assert(t.drop_last() =~= v@.take(i as int));
            lemma_disp_width_mono(v@, i + 1);
        }
        let c = v[i];
        if char_columns(c) == 1 {
            w = w + 1;
        } else {
            w = w + 2;
        }
        i = i + 1;
    }
    assert(v@.take(v@.len() as int) =~= v@);
    w
}



/// Whether a text takes at most `bound` columns.
pub fn width_at_most(v: &Vec<char>, bound: usize) -> (r: bool)
    ensures
        r == (disp_width(v@) <= bound),
{
    let mut acc: usize = 0;
    let mut i: usize = 0;
    while i < v.len()
        invariant
            i <= v@.len(),
            acc == disp_width(v@.take(i as int)),
            acc <= bound,
        decreases v@.len() - i,
    {
        let w: usize = char_columns(v[i]);
        proof {
            let t = v@.take(i + 1);
            assert(t.drop_last() =~= v@.take(i as int));
        }
        if w > bound - acc {
            proof {
                lemma_disp_width_mono(v@, i + 1);
            }
            return false;
        }
        acc = acc + w;
        i = i + 1;
    }
    assert(v@.take(v@.len() as int) =~= v@);
    true
}

// ---------------------------------------------------------------------------
// The state panel
// ---------------------------------------------------------------------------

pub open spec fn idx_or_zero(o: Option<u32>) -> int {
    match o {
        Some(i) => i as int,
        None => 0,
    }
}

pub open spec fn text_or(o: Option<String>, d: Seq<char>) -> Seq<char> {
    match o {
        Some(s) => s@,
        None => d,
    }
}

pub open spec fn flag_or(o: Option<bool>, d: bool) -> bool {
    match o {
        Some(b) => b,
        None => d,
    }
}

/// `bool`'s `Display`.
pub open spec fn bool_text(b: bool) -> Seq<char> {
    if b {
        "true"@
    } else {
        "false"@
    }
}

/// `  [i] name cost费`, marked when it cannot be played.
pub open spec fn hand_line(c: Card) -> Seq<char> {
    "  ["@ + dec_int(idx_or_zero(c.index)) + "] "@ + c.name@ + " "@ + c.cost@ + "费"@ + (if flag_or(
        c.can_play,
        true,
    ) {
        Seq::empty()
    } else {
        " [不可出]"@
    })
}

/// The first intent of an enemy: its kind and label.
pub open spec fn intent_text(e: Enemy) -> Seq<char> {
    if e.intents@.len() > 0 {
        e.intents@[0].kind@ + " "@ + text_or(e.intents@[0].label, Seq::empty())
    } else {
        Seq::empty()
    }
}

pub open spec fn enemy_line(e: Enemy) -> Seq<char> {
    "  "@ + e.name@ + " "@ + dec_int(e.hp as int) + "/"@ + dec_int(e.max_hp as int) + " HP | "@
        + intent_text(e)
}

pub open spec fn map_line(o: MapNextOption) -> Seq<char> {
    "  ["@ + dec_int(idx_or_zero(o.index)) + "] "@ + text_or(o.kind, "?"@)
}

pub open spec fn reward_line(r: RewardItem) -> Seq<char> {
    "  ["@ + dec_int(idx_or_zero(r.index)) + "] "@ + text_or(r.description, Seq::empty())
}

/// A card offered for picking: index, name, cost and description.
pub open spec fn offered_line(c: Card) -> Seq<char> {
    "  ["@ + dec_int(idx_or_zero(c.index)) + "] "@ + c.name@ + " "@ + c.cost@ + "费 "@ + text_or(
        c.description,
        Seq::empty(),
    )
}

/// A titled block after an empty line; nothing when there are no lines.
pub open spec fn section(title: Seq<char>, ls: Seq<Seq<char>>) -> Seq<Seq<char>> {
    if ls.len() == 0 {
        Seq::empty()
    } else {
        seq![Seq::empty(), title] + ls
    }
}

pub open spec fn player_lines(p: Player) -> Seq<Seq<char>> {
    seq!["职业: "@ + p.character@, "HP: "@ + dec_int(p.hp as int) + "/"@ + dec_int(p.max_hp as int)]
        + (if p.block > 0 {
        seq!["格挡: "@ + dec_int(p.block as int)]
    } else {
        Seq::empty()
    }) + (match p.energy {
        Some(e) => seq![
            "能量: "@ + dec_int(e as int) + "/"@ + dec_int(
                match p.max_energy {
                    Some(m) => m as int,
                    None => 3,
                },
            ),
        ],
        None => Seq::empty(),
    }) + seq!["金币: "@ + dec_int(p.gold as int)]
}

pub open spec fn hand_lines(h: Seq<Card>) -> Seq<Seq<char>> {
    Seq::new(h.len(), |i: int| hand_line(h[i]))
}

pub open spec fn enemy_lines(es: Seq<Enemy>) -> Seq<Seq<char>> {
    Seq::new(es.len(), |i: int| enemy_line(es[i]))
}

pub open spec fn map_lines(os: Seq<MapNextOption>) -> Seq<Seq<char>> {
    Seq::new(os.len(), |i: int| map_line(os[i]))
}

pub open spec fn reward_lines(rs: Seq<RewardItem>) -> Seq<Seq<char>> {
    Seq::new(rs.len(), |i: int| reward_line(rs[i]))
}

pub open spec fn offered_lines(cs: Seq<Card>) -> Seq<Seq<char>> {
    Seq::new(cs.len(), |i: int| offered_line(cs[i]))
}

pub open spec fn card_reward_lines(cr: CardReward) -> Seq<Seq<char>> {
    if cr.cards@.len() == 0 {
        Seq::empty()
    } else {
        seq![Seq::empty(), "可选卡牌:"@] + offered_lines(cr.cards@) + seq![
            "  可跳过: "@ + bool_text(flag_or(cr.can_skip, false)),
        ]
    }
}

pub open spec fn card_select_lines(cs: CardSelect) -> Seq<Seq<char>> {
    seq![
        Seq::empty(),
        match cs.prompt {
            Some(p) => "卡牌选择: "@ + p@,
            None => "卡牌选择:"@,
        },
    ] + (match cs.screen_type {
        Some(st) => seq!["  类型: "@ + st@],
        None => Seq::empty(),
    }) + offered_lines(cs.cards@) + seq![
        "  可确认: "@ + bool_text(flag_or(cs.can_confirm, false)) + " | 可取消: "@ + bool_text(
            flag_or(cs.can_cancel, false),
        ) + " | 预览中: "@ + bool_text(flag_or(cs.preview_showing, false)),
    ]
}

/// The lines of the state panel.
pub open spec fn panel_lines(gs: GameState) -> Seq<Seq<char>> {
    match gs.player {
        None => seq!["无角色信息"@],
        Some(p) => player_lines(p) + (match p.hand {
            Some(h) => section("手牌:"@, hand_lines(h@)),
            None => Seq::empty(),
        }) + (match gs.battle {
            Some(b) => section("敌人:"@, enemy_lines(b.enemies@)),
            None => Seq::empty(),
        }) + (match gs.map {
            Some(m) => section("路径:"@, map_lines(m.next_options@)),
            None => Seq::empty(),
        }) + (match gs.rewards {
            Some(r) => section("奖励:"@, reward_lines(r.items@)),
            None => Seq::empty(),
        }) + (match gs.card_reward {
            Some(cr) => card_reward_lines(cr),
            None => Seq::empty(),
        }) + (match gs.card_select {
            Some(cs) => card_select_lines(cs),
            None => Seq::empty(),
        }),
    }
}

fn push_int(out: &mut String, n: i64)
    ensures
        final(out)@ == old(out)@ + dec_int(n as int),
{
    let s = i64_to_string(n);
    push_str(out, s.as_str());
}

fn push_bool(out: &mut String, b: bool)
    ensures
        final(out)@ == old(out)@ + bool_text(b),
{
    if b {
        push_str(out, "true");
    } else {
        push_str(out, "false");
    }
}

fn push_opt(out: &mut String, o: &Option<String>, d: &str)
    ensures
        final(out)@ == old(out)@ + text_or(*o, d@),
{
    match o {
        Some(s) => push_str(out, s.as_str()),
        None => push_str(out, d),
    }
}

fn idx_of(o: Option<u32>) -> (r: i64)
    ensures
        r == idx_or_zero(o),
{
    match o {
        Some(i) => i as i64,
        None => 0,
    }
}

fn hand_line_of(c: &Card) -> (r: String)
    ensures
        r@ == hand_line(*c),
{
    let mut s = copy_str("  [");
    push_int(&mut s, idx_of(c.index));
    push_str(&mut s, "] ");
    push_str(&mut s, c.name.as_str());
    push_str(&mut s, " ");
    push_str(&mut s, c.cost.as_str());
    push_str(&mut s, "费");
    let playable = match c.can_play {
        Some(b) => b,
        None => true,
    };
    if !playable {
        push_str(&mut s, " [不可出]");
    }
    s
}

fn enemy_line_of(e: &Enemy) -> (r: String)
    ensures
        r@ == enemy_line(*e),
{
    proof {
        reveal_strlit("");
    }
    let mut s = copy_str("  ");
    push_str(&mut s, e.name.as_str());
    push_str(&mut s, " ");
    push_int(&mut s, e.hp as i64);
    push_str(&mut s, "/");
    push_int(&mut s, e.max_hp as i64);
    push_str(&mut s, " HP | ");
    if e.intents.len() > 0 {
        push_str(&mut s, e.intents[0].kind.as_str());
        push_str(&mut s, " ");
        push_opt(&mut s, &e.intents[0].label, "");
    }
    s
}

fn map_line_of(o: &MapNextOption) -> (r: String)
    ensures
        r@ == map_line(*o),
{
    let mut s = copy_str("  [");
    push_int(&mut s, idx_of(o.index));
    push_str(&mut s, "] ");
    push_opt(&mut s, &o.kind, "?");
    s
}

fn reward_line_of(r: &RewardItem) -> (out: String)
    ensures
        out@ == reward_line(*r),
{
    proof {
        reveal_strlit("");
    }
    let mut s = copy_str("  [");
    push_int(&mut s, idx_of(r.index));
    push_str(&mut s, "] ");
    push_opt(&mut s, &r.description, "");
    s
}

fn offered_line_of(c: &Card) -> (r: String)
    ensures
        r@ == offered_line(*c),
{
    proof {
        reveal_strlit("");
    }
    let mut s = copy_str("  [");
    push_int(&mut s, idx_of(c.index));
    push_str(&mut s, "] ");
    push_str(&mut s, c.name.as_str());
    push_str(&mut s, " ");
    push_str(&mut s, c.cost.as_str());
    push_str(&mut s, "费 ");
    push_opt(&mut s, &c.description, "");
    s
}

fn push_line(out: &mut Vec<String>, s: String)
    ensures
        views(final(out)@) == views(old(out)@).push(s@),
{
    let ghost before = out@;
    out.push(s);
    assert(views(out@) =~= views(before).push(s@));
}

fn push_hand_lines(out: &mut Vec<String>, h: &Vec<Card>)
    ensures
        views(final(out)@) == views(old(out)@) + hand_lines(h@),
{
    let ghost base = views(out@);
    let mut i: usize = 0;
    while i < h.len()
        invariant
            i <= h@.len(),
            views(out@) == base + hand_lines(h@.take(i as int)),
        decreases h@.len() - i,
    {
        push_line(out, hand_line_of(&h[i]));
        i = i + 1;
        assert(views(out@) =~= base + hand_lines(h@.take(i as int)));
    }
    assert(h@.take(h@.len() as int) =~= h@);
}

fn push_enemy_lines(out: &mut Vec<String>, es: &Vec<Enemy>)
    ensures
        views(final(out)@) == views(old(out)@) + enemy_lines(es@),
{
    let ghost base = views(out@);
    let mut i: usize = 0;
    while i < es.len()
        invariant
            i <= es@.len(),
            views(out@) == base + enemy_lines(es@.take(i as int)),
        decreases es@.len() - i,
    {
        push_line(out, enemy_line_of(&es[i]));
        i = i + 1;
        assert(views(out@) =~= base + enemy_lines(es@.take(i as int)));
    }
    assert(es@.take(es@.len() as int) =~= es@);
}

fn push_map_lines(out: &mut Vec<String>, os: &Vec<MapNextOption>)
    ensures
        views(final(out)@) == views(old(out)@) + map_lines(os@),
{
    let ghost base = views(out@);
    let mut i: usize = 0;
    while i < os.len()
        invariant
            i <= os@.len(),
            views(out@) == base + map_lines(os@.take(i as int)),
        decreases os@.len() - i,
    {
        push_line(out, map_line_of(&os[i]));
        i = i + 1;
        assert(views(out@) =~= base + map_lines(os@.take(i as int)));
    }
    assert(os@.take(os@.len() as int) =~= os@);
}

fn push_reward_lines(out: &mut Vec<String>, rs: &Vec<RewardItem>)
    ensures
        views(final(out)@) == views(old(out)@) + reward_lines(rs@),
{
    let ghost base = views(out@);
    let mut i: usize = 0;
    while i < rs.len()
        invariant
            i <= rs@.len(),
            views(out@) == base + reward_lines(rs@.take(i as int)),
        decreases rs@.len() - i,
    {
        push_line(out, reward_line_of(&rs[i]));
        i = i + 1;
        assert(views(out@) =~= base + reward_lines(rs@.take(i as int)));
    }
    assert(rs@.take(rs@.len() as int) =~= rs@);
}

fn push_offered_lines(out: &mut Vec<String>, cs: &Vec<Card>)
    ensures
        views(final(out)@) == views(old(out)@) + offered_lines(cs@),
{
    let ghost base = views(out@);
    let mut i: usize = 0;
    while i < cs.len()
        invariant
            i <= cs@.len(),
            views(out@) == base + offered_lines(cs@.take(i as int)),
        decreases cs@.len() - i,
    {
        push_line(out, offered_line_of(&cs[i]));
        i = i + 1;
        assert(views(out@) =~= base + offered_lines(cs@.take(i as int)));
    }
    assert(cs@.take(cs@.len() as int) =~= cs@);
}

fn push_player_lines(out: &mut Vec<String>, p: &Player)
    ensures
        views(final(out)@) == views(old(out)@) + player_lines(*p),
{
    let ghost base = views(out@);
    let mut a = copy_str("职业: ");
    push_str(&mut a, p.character.as_str());
    push_line(out, a);
    let mut b = copy_str("HP: ");
    push_int(&mut b, p.hp as i64);
    push_str(&mut b, "/");
    push_int(&mut b, p.max_hp as i64);
    push_line(out, b);
    if p.block > 0 {
        let mut c = copy_str("格挡: ");
        push_int(&mut c, p.block as i64);
        push_line(out, c);
    }
    match p.energy {
        Some(e) => {
            let mut d = copy_str("能量: ");
            push_int(&mut d, e as i64);
            push_str(&mut d, "/");
            let m: i64 = match p.max_energy {
                Some(m) => m as i64,
                None => 3,
            };
            push_int(&mut d, m);
            push_line(out, d);
        },
        None => {},
    }
    let mut g = copy_str("金币: ");
    push_int(&mut g, p.gold as i64);
    push_line(out, g);
    assert(views(out@) =~= base + player_lines(*p));
}

fn push_section_head(out: &mut Vec<String>, title: &str)
    ensures
        views(final(out)@) == views(old(out)@) + seq![Seq::<char>::empty(), title@],
{
    let ghost base = views(out@);
    push_line(out, String::new());
    push_line(out, copy_str(title));
    assert(views(out@) =~= base + seq![Seq::<char>::empty(), title@]);
}

fn push_card_reward(out: &mut Vec<String>, cr: &CardReward)
    ensures
        views(final(out)@) == views(old(out)@) + card_reward_lines(*cr),
{
    let ghost base = views(out@);
    if cr.cards.len() == 0 {
        assert(views(out@) =~= base + card_reward_lines(*cr));
        return;
    }
    push_section_head(out, "可选卡牌:");
    push_offered_lines(out, &cr.cards);
    let mut s = copy_str("  可跳过: ");
    push_bool(
        &mut s,
        match cr.can_skip {
            Some(b) => b,
            None => false,
        },
    );
    push_line(out, s);
    assert(views(out@) =~= base + card_reward_lines(*cr));
}

fn push_card_select(out: &mut Vec<String>, cs: &CardSelect)
    ensures
        views(final(out)@) == views(old(out)@) + card_select_lines(*cs),
{
    let ghost base = views(out@);
    push_line(out, String::new());
    match &cs.prompt {
        Some(p) => {
            let mut h = copy_str("卡牌选择: ");
            push_str(&mut h, p.as_str());
            push_line(out, h);
        },
        None => push_line(out, copy_str("卡牌选择:")),
    }
    match &cs.screen_type {
        Some(st) => {
            let mut t = copy_str("  类型: ");
            push_str(&mut t, st.as_str());
            push_line(out, t);
        },
        None => {},
    }
    push_offered_lines(out, &cs.cards);
    let mut f = copy_str("  可确认: ");
    push_bool(
        &mut f,
        match cs.can_confirm {
            Some(b) => b,
            None => false,
        },
    );
    push_str(&mut f, " | 可取消: ");
    push_bool(
        &mut f,
        match cs.can_cancel {
            Some(b) => b,
            None => false,
        },
    );
    push_str(&mut f, " | 预览中: ");
    push_bool(
        &mut f,
        match cs.preview_showing {
            Some(b) => b,
            None => false,
        },
    );
    push_line(out, f);
    assert(views(out@) =~= base + card_select_lines(*cs));
}

/// The lines of the state panel: the player, the hand, the enemies, the map
/// choices, the rewards, the offered cards and a card selection.
pub fn state_lines(gs: &GameState) -> (r: Vec<String>)
    ensures
        views(r@) == panel_lines(*gs),
{
    let mut out: Vec<String> = Vec::new();
    let p = match &gs.player {
        Some(p) => p,
        None => {
            push_line(&mut out, copy_str("无角色信息"));
            assert(views(out@) =~= panel_lines(*gs));
            return out;
        },
    };
    assert(views(out@) =~= Seq::<Seq<char>>::empty());
    push_player_lines(&mut out, p);
    let ghost s1 = views(out@);
    match &p.hand {
        Some(h) => if h.len() > 0 {
            push_section_head(&mut out, "手牌:");
            push_hand_lines(&mut out, h);
        },
        None => {},
    }
    let ghost s2 = views(out@);
    match &gs.battle {
        Some(b) => if b.enemies.len() > 0 {
            push_section_head(&mut out, "敌人:");
            push_enemy_lines(&mut out, &b.enemies);
        },
        None => {},
    }
    let ghost s3 = views(out@);
    match &gs.map {
        Some(m) => if m.next_options.len() > 0 {
            push_section_head(&mut out, "路径:");
            push_map_lines(&mut out, &m.next_options);
        },
        None => {},
    }
    let ghost s4 = views(out@);
    match &gs.rewards {
        Some(r) => if r.items.len() > 0 {
            push_section_head(&mut out, "奖励:");
            push_reward_lines(&mut out, &r.items);
        },
        None => {},
    }
    let ghost s5 = views(out@);
    match &gs.card_reward {
        Some(cr) => push_card_reward(&mut out, cr),
        None => {},
    }
    let ghost s6 = views(out@);
    match &gs.card_select {
        Some(cs) => push_card_select(&mut out, cs),
        None => {},
    }
    proof {
        let hp = match &p.hand {
            Some(h) => section("手牌:"@, hand_lines(h@)),
            None => Seq::empty(),
        };
        assert(s2 =~= s1 + hp);
        let bp = match &gs.battle {
            Some(b) => section("敌人:"@, enemy_lines(b.enemies@)),
            None => Seq::empty(),
        };
        assert(s3 =~= s2 + bp);
        let mp = match &gs.map {
            Some(m) => section("路径:"@, map_lines(m.next_options@)),
            None => Seq::empty(),
        };
        assert(s4 =~= s3 + mp);
        let rp = match &gs.rewards {
            Some(r) => section("奖励:"@, reward_lines(r.items@)),
            None => Seq::empty(),
        };
        assert(s5 =~= s4 + rp);
        let cp = match &gs.card_reward {
            Some(cr) => card_reward_lines(*cr),
            None => Seq::empty(),
        };
        assert(s6 =~= s5 + cp);
        let sp = match &gs.card_select {
            Some(cs) => card_select_lines(*cs),
            None => Seq::empty(),
        };
        assert(views(out@) =~= s6 + sp);
        assert(views(out@) =~= panel_lines(*gs));
    }
    out
}

// ---------------------------------------------------------------------------
// The status summary
// ---------------------------------------------------------------------------

/// `Battle R<round> | hp/max HP <energy> 能量 | <first enemy>`, with the
/// given separator before the energy and label before the enemy.
pub open spec fn battle_summary(gs: GameState, hp_sep: Seq<char>, enemy_label: Seq<char>) -> Seq<
    char,
> {
    match (gs.battle, gs.player) {
        (Some(b), Some(p)) => "战斗 R"@ + dec_int(idx_or_zero(b.round)) + " | "@ + dec_int(
            p.hp as int,
        ) + "/"@ + dec_int(p.max_hp as int) + hp_sep + dec_int(
            match p.energy {
                Some(e) => e as int,
                None => 0,
            },
        ) + " 能量 | "@ + enemy_label + (if b.enemies@.len() > 0 {
            b.enemies@[0].name@
        } else {
            "?"@
        }),
        _ => "战斗"@,
    }
}

/// The one-line summary of a state for the status line and the prompt.
pub open spec fn summary_text(gs: GameState) -> Seq<char> {
    match gs.state_type {
        StateType::MapScreen => "地图"@,
        StateType::Monster | StateType::Elite | StateType::Boss => battle_summary(
            gs,
            " HP "@,
            Seq::empty(),
        ),
        StateType::Rewards => "奖励"@,
        StateType::CardReward => "选牌"@,
        StateType::CardSelect => "卡牌选择"@,
        StateType::RestSite => "休息点"@,
        StateType::Shop | StateType::FakeMerchant => "商店"@,
        StateType::Event => "事件"@,
        StateType::Treasure => "宝箱"@,
        _ => state_type_name(gs.state_type),
    }
}

pub(crate) fn battle_summary_text(gs: &GameState, hp_sep: &str, enemy_label: &str) -> (r: String)
    ensures
        r@ == battle_summary(*gs, hp_sep@, enemy_label@),
{
    match (&gs.battle, &gs.player) {
        (Some(b), Some(p)) => {
            let mut s = copy_str("战斗 R");
            push_int(&mut s, idx_of(b.round));
            push_str(&mut s, " | ");
            push_int(&mut s, p.hp as i64);
            push_str(&mut s, "/");
            push_int(&mut s, p.max_hp as i64);
            push_str(&mut s, hp_sep);
            let e: i64 = match p.energy {
                Some(e) => e as i64,
                None => 0,
            };
            push_int(&mut s, e);
            push_str(&mut s, " 能量 | ");
            push_str(&mut s, enemy_label);
            if b.enemies.len() > 0 {
                push_str(&mut s, b.enemies[0].name.as_str());
            } else {
                push_str(&mut s, "?");
            }
            s
        },
        _ => copy_str("战斗"),
    }
}

/// A one-line summary of the state.
pub fn state_summary(gs: &GameState) -> (r: String)
    ensures
        r@ == summary_text(*gs),
{
    proof {
        reveal_strlit("");
    }
    match gs.state_type {
        StateType::MapScreen => copy_str("地图"),
        StateType::Monster | StateType::Elite | StateType::Boss => battle_summary_text(gs, " HP ", ""),
        StateType::Rewards => copy_str("奖励"),
        StateType::CardReward => copy_str("选牌"),
        StateType::CardSelect => copy_str("卡牌选择"),
        StateType::RestSite => copy_str("休息点"),
        StateType::Shop | StateType::FakeMerchant => copy_str("商店"),
        StateType::Event => copy_str("事件"),
        StateType::Treasure => copy_str("宝箱"),
        _ => gs.state_type.name(),
    }
}

} // verus!
