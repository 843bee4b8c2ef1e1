//! What the conversation panel shows: the chat entries, the reasoning and
//! the answer being streamed, and a pending action, each line wrapped to the
//! panel's width by display columns (wide CJK characters two, any other one) without cutting
//! anything off; and how far the panel scrolls.  Also what the top bar
//! says of the work in progress.
use vstd::prelude::*;

use crate::app::{char_width, disp_width, display_width, lemma_disp_width_mono, AppState, ChatMsg, MsgRole};
use crate::text::{chars_of, contains, copy_str, lines, push_str, string_from_chars, vec_contains, vec_lines};

verus! {

// ---------------------------------------------------------------------------
// Wrapping
// ---------------------------------------------------------------------------

/// Reads a line character by character: the pieces finished, the piece being
/// filled, and its width.  A character that does not fit starts a new piece,
/// unless the piece is still empty.
pub open spec fn wrap_scan(cs: Seq<char>, max: nat) -> (Seq<Seq<char>>, Seq<char>, nat)
    decreases cs.len(),
{
    if cs.len() == 0 {
        (Seq::empty(), Seq::empty(), 0)
    } else {
        let (done, cur, w) = wrap_scan(cs.drop_last(), max);
        let c = cs.last();
        if w + char_width(c) > max && cur.len() > 0 {
            (done.push(cur), seq![c], char_width(c))
        } else {
            (done, cur.push(c), w + char_width(c))
        }
    }
}

/// A line cut into pieces no wider than `max` columns.  A line that fits,
/// or a width of 0, leaves the line whole.
pub open spec fn wrapped(line: Seq<char>, max: nat) -> Seq<Seq<char>> {
    if max == 0 || disp_width(line) <= max {
        seq![line]
    } else {
        let (done, cur, w) = wrap_scan(line, max);
        let all = if cur.len() > 0 {
            done.push(cur)
        } else {
            done
        };
        if all.len() == 0 {
            seq![line]
        } else {
            all
        }
    }
}

/// Wraps a line to `max_width` columns; nothing is cut off.
pub fn wrap_line(line: &str, max_width: usize) -> (r: Vec<String>)
    requires
        disp_width(line@) <= u16::MAX,
    ensures
        r@.map_values(|s: String| s@) == wrapped(line@, max_width as nat),
{
    if max_width == 0 {
        let r = vec![copy_str(line)];
        assert(r@.map_values(|s: String| s@) =~= wrapped(line@, max_width as nat));
        return r;
    }
    let width = display_width(line) as usize;
    if width <= max_width {
        let r = vec![copy_str(line)];
        assert(r@.map_values(|s: String| s@) =~= wrapped(line@, max_width as nat));
        return r;
    }
    let v = chars_of(line);
    let mut result: Vec<Vec<char>> = Vec::new();
    let mut current: Vec<char> = Vec::new();
    let mut current_width: usize = 0;
    let mut i: usize = 0;
    while i < v.len()
        invariant
            v@ == line@,
            disp_width(line@) <= u16::MAX,
            i <= v@.len(),
            (result@.map_values(|p: Vec<char>| p@), current@, current_width as nat) == wrap_scan(
                v@.take(i as int),
                max_width as nat,
            ),
            current_width <= disp_width(v@.take(i as int)),
        decreases v@.len() - i,
    {
        proof {
            let t = v@.take(i + 1);
            assert(t.drop_last() =~= v@.take(i as int));
            lemma_disp_width_mono(v@, i + 1);
            lemma_scan_width(v@.take(i as int), max_width as nat);
        }
        let c = v[i];
        let w: usize = crate::app::char_columns(c);
        if current_width + w > max_width && current.len() > 0 {
            let ghost before = result@;
            let piece = current;
            result.push(piece);
            current = Vec::new();
            current.push(c);
            current_width = w;
            assert(result@.map_values(|p: Vec<char>| p@) =~= before.map_values(|p: Vec<char>| p@).push(
                piece@,
            ));
            assert(current@ =~= seq![c]);
        } else {
            current.push(c);
            current_width = current_width + w;
        }
        i = i + 1;
        proof {
            lemma_scan_width(v@.take(i as int), max_width as nat);
        }
    }
    assert(v@.take(v@.len() as int) =~= v@);
    if current.len() > 0 {
        let ghost before = result@;
        let piece = current;
        result.push(piece);
        assert(result@.map_values(|p: Vec<char>| p@) =~= before.map_values(|p: Vec<char>| p@).push(
            piece@,
        ));
    }
    if result.len() == 0 {
        let r = vec![copy_str(line)];
        assert(r@.map_values(|s: String| s@) =~= wrapped(line@, max_width as nat));
        return r;
    }
    let mut out: Vec<String> = Vec::new();
    let mut k: usize = 0;
    while k < result.len()
        invariant
            k <= result@.len(),
            out@.len() == k,
            forall|j: int| 0 <= j < k ==> #[trigger] out@[j]@ == result@[j]@,
        decreases result@.len() - k,
    {
        out.push(string_from_chars(result[k].as_slice()));
        k = k + 1;
    }
    assert(out@.map_values(|s: String| s@) =~= result@.map_values(|p: Vec<char>| p@));
    out
}

proof fn lemma_scan_width(cs: Seq<char>, max: nat)
    ensures
        wrap_scan(cs, max).2 <= disp_width(cs),
        wrap_scan(cs, max).2 == disp_width(wrap_scan(cs, max).1),
    decreases cs.len(),
{
    if cs.len() > 0 {
        lemma_scan_width(cs.drop_last(), max);
        let (done, cur, w) = wrap_scan(cs.drop_last(), max);
        let c = cs.last();
        assert(disp_width(Seq::<char>::empty()) == 0);
        if w + char_width(c) > max && cur.len() > 0 {
            assert(seq![c].drop_last() =~= Seq::<char>::empty());
            assert(disp_width(seq![c]) == char_width(c));
        } else {
            assert(cur.push(c).drop_last() =~= cur);
        }
    }
}

/// The pieces put back together.
pub open spec fn concat_all(ps: Seq<Seq<char>>) -> Seq<char>
    decreases ps.len(),
{
    if ps.len() == 0 {
        Seq::empty()
    } else {
        concat_all(ps.drop_last()) + ps.last()
    }
}

proof fn lemma_scan_laws(cs: Seq<char>, max: nat)
    ensures
        concat_all(wrap_scan(cs, max).0) + wrap_scan(cs, max).1 == cs,
        forall|j: int|
            0 <= j < wrap_scan(cs, max).0.len() ==> (disp_width(
                #[trigger] wrap_scan(cs, max).0[j],
            ) <= max || wrap_scan(cs, max).0[j].len() == 1),
        wrap_scan(cs, max).1.len() > 0 ==> (disp_width(wrap_scan(cs, max).1) <= max
            || wrap_scan(cs, max).1.len() == 1),
    decreases cs.len(),
{
    if cs.len() > 0 {
        let p = cs.drop_last();
        lemma_scan_laws(p, max);
        lemma_scan_width(p, max);
        let (done, cur, w) = wrap_scan(p, max);
        let c = cs.last();
        assert(concat_all(done) + cur == p);
        assert(cs =~= p.push(c));
        if w + char_width(c) > max && cur.len() > 0 {
            assert(done.push(cur).drop_last() =~= done);
            assert(concat_all(done.push(cur)) + seq![c] =~= cs);
            assert(seq![c].drop_last() =~= Seq::<char>::empty());
        } else {
            assert(cur.push(c).drop_last() =~= cur);
            assert(concat_all(done) + cur.push(c) =~= cs);
        }
    }
}

/// Wrapping cuts nothing off: the pieces put together give the line back,
/// and each piece fits the width, unless it is a single character wider
/// than the width.
pub proof fn lemma_wrapped_keeps_text(line: Seq<char>, max: nat)
    ensures
        concat_all(wrapped(line, max)) == line,
        forall|j: int|
            0 <= j < wrapped(line, max).len() ==> (max == 0 || disp_width(
                #[trigger] wrapped(line, max)[j],
            ) <= max || wrapped(line, max)[j].len() == 1),
{
    let w = wrapped(line, max);
    if max == 0 || disp_width(line) <= max {
        assert(seq![line].drop_last() =~= Seq::<Seq<char>>::empty());
        assert(concat_all(Seq::<Seq<char>>::empty()) =~= Seq::<char>::empty());
        assert(concat_all(seq![line]) =~= line);
    } else {
        lemma_scan_laws(line, max);
        let (done, cur, wd) = wrap_scan(line, max);
        if cur.len() > 0 {
            assert(done.push(cur).drop_last() =~= done);
        } else {
            assert(concat_all(done) + cur =~= concat_all(done));
        }
        if (if cur.len() > 0 { done.push(cur) } else { done }).len() == 0 {
            assert(concat_all(Seq::<Seq<char>>::empty()) =~= Seq::<char>::empty());
            assert(seq![line].drop_last() =~= Seq::<Seq<char>>::empty());
            assert(concat_all(seq![line]) =~= line);
        }
    }
}

// ---------------------------------------------------------------------------
// The conversation panel
// ---------------------------------------------------------------------------

/// One line of the conversation panel, dimmed or not.
#[derive(Debug, Clone)]
pub struct PanelLine {
    pub text: String,
    pub dim: bool,
}

/// A panel line by its text.
pub struct PanelText {
    pub text: Seq<char>,
    pub dim: bool,
}

pub open spec fn panel_view(l: PanelLine) -> PanelText {
    PanelText { text: l.text@, dim: l.dim }
}

/// What the panel shows: its wrapped lines, and the first line in view.
#[derive(Debug, Clone)]
pub struct ChatPanel {
    pub lines: Vec<PanelLine>,
    pub scroll: u16,
}

/// The label of a chat entry, and whether it is dimmed.
pub open spec fn role_label(r: MsgRole) -> (Seq<char>, bool) {
    match r {
        MsgRole::User => ("你"@, false),
        MsgRole::Agent => ("Agent"@, false),
        MsgRole::System => ("系统"@, false),
        MsgRole::Thinking => ("思考"@, true),
    }
}

/// The lines of a text, indented by two spaces.
pub open spec fn indented(ls: Seq<Seq<char>>, dim: bool) -> Seq<PanelText> {
    Seq::new(ls.len(), |i: int| PanelText { text: "  "@ + ls[i], dim })
}

/// One chat entry: `[label]`, its lines indented, an empty line.
pub open spec fn msg_block(m: ChatMsg) -> Seq<PanelText> {
    let (label, dim) = role_label(m.role);
    seq![PanelText { text: "["@ + label + "]"@, dim }] + indented(lines(m.text@), dim) + seq![
        PanelText { text: Seq::empty(), dim: false },
    ]
}

pub open spec fn chat_blocks(chat: Seq<ChatMsg>) -> Seq<PanelText>
    decreases chat.len(),
{
    if chat.len() == 0 {
        Seq::empty()
    } else {
        chat_blocks(chat.drop_last()) + msg_block(chat.last())
    }
}

pub const PENDING_HINT: &'static str = "  输入「执行」确认 / 输入其他文字与 Agent 沟通";

/// The panel's lines before wrapping: the chat, the reasoning being streamed
/// (when shown), the answer being streamed, and the action waiting for
/// confirmation.
pub open spec fn raw_panel(
    chat: Seq<ChatMsg>,
    show_thinking: bool,
    reasoning: Seq<char>,
    streaming: Seq<char>,
    pending: Option<Seq<char>>,
) -> Seq<PanelText> {
    chat_blocks(chat) + (if show_thinking && reasoning.len() > 0 {
        seq![PanelText { text: "(思考中)"@, dim: true }] + indented(lines(reasoning), true)
    } else {
        Seq::empty()
    }) + (if streaming.len() > 0 {
        seq![PanelText { text: "[Agent]"@, dim: false }] + indented(lines(streaming), false)
    } else {
        Seq::empty()
    }) + (match pending {
        Some(a) => seq![
            PanelText { text: Seq::empty(), dim: false },
            PanelText { text: "⏳ 待确认: "@ + a, dim: false },
            PanelText { text: PENDING_HINT@, dim: false },
        ],
        None => Seq::empty(),
    })
}

/// Each line wrapped to `max` columns, keeping its dimming.
pub open spec fn wrap_panel(raw: Seq<PanelText>, max: nat) -> Seq<PanelText>
    decreases raw.len(),
{
    if raw.len() == 0 {
        Seq::empty()
    } else {
        let l = raw.last();
        let w = wrapped(l.text, max);
        wrap_panel(raw.drop_last(), max) + Seq::new(
            w.len(),
            |j: int| PanelText { text: w[j], dim: l.dim },
        )
    }
}

pub open spec fn sat_sub(a: int, b: int) -> int {
    if a > b {
        a - b
    } else {
        0
    }
}

/// The panel of a state in an area of `width` by `height` cells (borders
/// included): the wrapped lines, and the scroll that shows the bottom, moved
/// up by the panel's scroll.
pub open spec fn panel_of(s: AppState, width: u16, height: u16) -> (Seq<PanelText>, int) {
    let raw = raw_panel(
        s.chat@,
        s.show_thinking,
        s.reasoning_text@,
        s.streaming_text@,
        crate::text::opt_view(s.pending_action),
    );
    let ls = wrap_panel(raw, sat_sub(width as int, 2) as nat);
    let visible = sat_sub(height as int, 2);
    let content: int = (ls.len() % 65536) as int;
    (ls, sat_sub(sat_sub(content, visible), s.chat_scroll as int))
}

/// Whether every line fits the column count the width is measured in.
pub open spec fn panel_fits(s: AppState) -> bool {
    let raw = raw_panel(
        s.chat@,
        s.show_thinking,
        s.reasoning_text@,
        s.streaming_text@,
        crate::text::opt_view(s.pending_action),
    );
    forall|i: int| 0 <= i < raw.len() ==> disp_width(#[trigger] raw[i].text) <= u16::MAX
}

fn push_panel(out: &mut Vec<PanelLine>, text: String, dim: bool)
    ensures
        final(out)@.map_values(|l: PanelLine| panel_view(l)) == old(out)@.map_values(
            |l: PanelLine| panel_view(l),
        ).push(PanelText { text: text@, dim }),
{
    let ghost before = out@;
    out.push(PanelLine { text, dim });
    assert(out@.map_values(|l: PanelLine| panel_view(l)) =~= before.map_values(
        |l: PanelLine| panel_view(l),
    ).push(PanelText { text: text@, dim }));
}

fn push_indented(out: &mut Vec<PanelLine>, text: &String, dim: bool)
    ensures
        final(out)@.map_values(|l: PanelLine| panel_view(l)) == old(out)@.map_values(
            |l: PanelLine| panel_view(l),
        ) + indented(lines(text@), dim),
{
    let ghost base = out@.map_values(|l: PanelLine| panel_view(l));
    let v = chars_of(text.as_str());
    let ls = vec_lines(&v);
    let ghost big = lines(text@);
    let mut i: usize = 0;
    while i < ls.len()
        invariant
            big == lines(text@),
            ls@.len() == big.len(),
            forall|k: int| 0 <= k < ls@.len() ==> #[trigger] ls@[k]@ == big[k],
            i <= ls@.len(),
            out@.map_values(|l: PanelLine| panel_view(l)) == base + indented(big.take(i as int), dim),
        decreases ls@.len() - i,
    {
        let mut s = copy_str("  ");
        let piece = string_from_chars(ls[i].as_slice());
        push_str(&mut s, piece.as_str());
        push_panel(out, s, dim);
        i = i + 1;
        assert(out@.map_values(|l: PanelLine| panel_view(l)) =~= base + indented(
            big.take(i as int),
            dim,
        ));
    }
    assert(big.take(ls@.len() as int) =~= big);
}

fn raw_panel_lines(s: &AppState) -> (r: Vec<PanelLine>)
    ensures
        r@.map_values(|l: PanelLine| panel_view(l)) == raw_panel(
            s.chat@,
            s.show_thinking,
            s.reasoning_text@,
            s.streaming_text@,
            crate::text::opt_view(s.pending_action),
        ),
{
    let mut out: Vec<PanelLine> = Vec::new();
    let mut i: usize = 0;
    assert(out@.map_values(|l: PanelLine| panel_view(l)) =~= Seq::<PanelText>::empty());
    while i < s.chat.len()
        invariant
            i <= s.chat@.len(),
            out@.map_values(|l: PanelLine| panel_view(l)) == chat_blocks(s.chat@.take(i as int)),
        decreases s.chat@.len() - i,
    {
        let ghost before = out@.map_values(|l: PanelLine| panel_view(l));
        let m = &s.chat[i];
        let (label, dim) = match m.role {
            MsgRole::User => ("你", false),
            MsgRole::Agent => ("Agent", false),
            MsgRole::System => ("系统", false),
            MsgRole::Thinking => ("思考", true),
        };
        let mut head = copy_str("[");
        push_str(&mut head, label);
        push_str(&mut head, "]");
        push_panel(&mut out, head, dim);
        push_indented(&mut out, &m.text, dim);
        push_panel(&mut out, String::new(), false);
        proof {
            let t = s.chat@.take(i + 1);
            assert(t.drop_last() =~= s.chat@.take(i as int));
            assert(t.last() == *m);
            assert(out@.map_values(|l: PanelLine| panel_view(l)) =~= before + msg_block(*m));
        }
        i = i + 1;
    }
    assert(s.chat@.take(s.chat@.len() as int) =~= s.chat@);
    let ghost a = out@.map_values(|l: PanelLine| panel_view(l));
    if s.show_thinking && !s.reasoning_text.as_str().is_empty() {
        push_panel(&mut out, copy_str("(思考中)"), true);
        push_indented(&mut out, &s.reasoning_text, true);
    }
    let ghost b = out@.map_values(|l: PanelLine| panel_view(l));
    if !s.streaming_text.as_str().is_empty() {
        push_panel(&mut out, copy_str("[Agent]"), false);
        push_indented(&mut out, &s.streaming_text, false);
    }
    let ghost c = out@.map_values(|l: PanelLine| panel_view(l));
    match &s.pending_action {
        Some(action) => {
            push_panel(&mut out, String::new(), false);
            let mut t = copy_str("⏳ 待确认: ");
            push_str(&mut t, action.as_str());
            push_panel(&mut out, t, false);
            push_panel(&mut out, copy_str(PENDING_HINT), false);
        },
        None => {},
    }
    proof {
        let thinking = if s.show_thinking && s.reasoning_text@.len() > 0 {
            seq![PanelText { text: "(思考中)"@, dim: true }] + indented(lines(s.reasoning_text@), true)
        } else {
            Seq::empty()
        };
        assert(b =~= a + thinking);
        let streaming = if s.streaming_text@.len() > 0 {
            seq![PanelText { text: "[Agent]"@, dim: false }] + indented(
                lines(s.streaming_text@),
                false,
            )
        } else {
            Seq::empty()
        };
        assert(c =~= b + streaming);
        reveal_strlit("");
        assert(out@.map_values(|l: PanelLine| panel_view(l)) =~= raw_panel(
            s.chat@,
            s.show_thinking,
            s.reasoning_text@,
            s.streaming_text@,
            crate::text::opt_view(s.pending_action),
        ));
    }
    out
}

/// The conversation panel of a state in an area of `width` by `height`
/// cells; `None` when a line is wider than the column count can hold.
pub fn chat_panel(s: &AppState, width: u16, height: u16) -> (r: Option<ChatPanel>)
    ensures
        r is Some <==> panel_fits(*s),
        r matches Some(p) ==> (p.lines@.map_values(|l: PanelLine| panel_view(l)), p.scroll as int)
            == panel_of(*s, width, height),
{
    let raw = raw_panel_lines(s);
    let ghost rv = raw@.map_values(|l: PanelLine| panel_view(l));
    let mut k: usize = 0;
    while k < raw.len()
        invariant
            rv == raw@.map_values(|l: PanelLine| panel_view(l)),
            rv == raw_panel(
                s.chat@,
                s.show_thinking,
                s.reasoning_text@,
                s.streaming_text@,
                crate::text::opt_view(s.pending_action),
            ),
            k <= raw@.len(),
            forall|j: int| 0 <= j < k ==> disp_width(#[trigger] rv[j].text) <= u16::MAX,
        decreases raw@.len() - k,
    {
        let v = chars_of(raw[k].text.as_str());
        if !crate::app::width_at_most(&v, 65535) {
            assert(rv[k as int].text == v@);
            assert(rv == raw_panel(
                s.chat@,
                s.show_thinking,
                s.reasoning_text@,
                s.streaming_text@,
                crate::text::opt_view(s.pending_action),
            ));
            assert(disp_width(rv[k as int].text) > u16::MAX);
            return None;
        }
        assert(rv[k as int].text == v@);
        k = k + 1;
    }
    let max_width: usize = if width > 2 {
        (width - 2) as usize
    } else {
        0
    };
    let visible: u16 = if height > 2 {
        height - 2
    } else {
        0
    };
    let mut out: Vec<PanelLine> = Vec::new();
    let mut i: usize = 0;
    assert(out@.map_values(|l: PanelLine| panel_view(l)) =~= Seq::<PanelText>::empty());
    while i < raw.len()
        invariant
            rv == raw@.map_values(|l: PanelLine| panel_view(l)),
            forall|j: int| 0 <= j < raw@.len() ==> disp_width(#[trigger] rv[j].text) <= u16::MAX,
            i <= raw@.len(),
            out@.map_values(|l: PanelLine| panel_view(l)) == wrap_panel(
                rv.take(i as int),
                max_width as nat,
            ),
        decreases raw@.len() - i,
    {
        let ghost before = out@.map_values(|l: PanelLine| panel_view(l));
        let line = &raw[i];
        assert(rv[i as int].text == line.text@);
        let pieces = wrap_line(line.text.as_str(), max_width);
        let ghost w = wrapped(line.text@, max_width as nat);
        let mut j: usize = 0;
        while j < pieces.len()
            invariant
                pieces@.map_values(|s: String| s@) == w,
                j <= pieces@.len(),
                out@.map_values(|l: PanelLine| panel_view(l)) == before + Seq::new(
                    j as nat,
                    |q: int| PanelText { text: w[q], dim: line.dim },
                ),
            decreases pieces@.len() - j,
        {
            assert(w[j as int] == pieces@[j as int]@);
            push_panel(&mut out, copy_str(pieces[j].as_str()), line.dim);
            j = j + 1;
            assert(out@.map_values(|l: PanelLine| panel_view(l)) =~= before + Seq::new(
                j as nat,
                |q: int| PanelText { text: w[q], dim: line.dim },
            ));
        }
        proof {
            let t = rv.take(i + 1);
            assert(t.drop_last() =~= rv.take(i as int));
            assert(t.last() == rv[i as int]);
        }
        i = i + 1;
    }
    assert(rv.take(raw@.len() as int) =~= rv);
    let content: u16 = (out.len() % 65536) as u16;
    let max_scroll: u16 = if content > visible {
        content - visible
    } else {
        0
    };
    let scroll: u16 = if max_scroll > s.chat_scroll {
        max_scroll - s.chat_scroll
    } else {
        0
    };
    Some(ChatPanel { lines: out, scroll })
}

// ---------------------------------------------------------------------------
// The top bar
// ---------------------------------------------------------------------------

/// What the top bar says of the work in progress.
#[derive(Debug)]
pub enum ProgressLabel {
    /// A progress text of a call under way, followed by the seconds it has taken.
    Timed(String),
    /// A progress text as it is.
    Plain(String),
    /// The model is answering and nothing else is said.
    Responding,
    /// Nothing is under way.
    Ready,
}

/// A progress text names a call still under way when it holds `中…`.
pub open spec fn under_way(p: Seq<char>) -> bool {
    contains(p, "中…"@)
}

/// The label: the kind (0 timed, 1 plain, 2 responding, 3 ready) and its text.
pub open spec fn label_view(l: ProgressLabel) -> (int, Seq<char>) {
    match l {
        ProgressLabel::Timed(t) => (0, t@),
        ProgressLabel::Plain(t) => (1, t@),
        ProgressLabel::Responding => (2, Seq::empty()),
        ProgressLabel::Ready => (3, Seq::empty()),
    }
}

pub open spec fn progress_of(streaming: bool, progress: Option<Seq<char>>) -> (int, Seq<char>) {
    match progress {
        Some(p) => if streaming && under_way(p) {
            (0, p)
        } else {
            (1, p)
        },
        None => if streaming {
            (2, Seq::empty())
        } else {
            (3, Seq::empty())
        },
    }
}

/// The top bar's progress label, from whether a model stream is under way
/// and the progress text.
pub fn progress_label(streaming: bool, progress: &Option<String>) -> (r: ProgressLabel)
    ensures
        label_view(r) == progress_of(
            streaming,
            match progress {
                Some(p) => Some(p@),
                None => None,
            },
        ),
{
    match progress {
        Some(p) => {
            let pv = chars_of(p.as_str());
            let mark = chars_of("中…");
            if streaming && vec_contains(&pv, &mark) {
                ProgressLabel::Timed(copy_str(p.as_str()))
            } else {
                ProgressLabel::Plain(copy_str(p.as_str()))
            }
        },
        None => if streaming {
            ProgressLabel::Responding
        } else {
            ProgressLabel::Ready
        },
    }
}

} // verus!
