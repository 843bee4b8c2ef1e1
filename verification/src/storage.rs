//! Session records: one record per decision round, where the session files
//! and the per-session notes live, and how notes are appended to a notes file.
use vstd::prelude::*;

use crate::text::{copy_str, ends_with, join, join_strings, push_str, starts_with, views};

verus! {

/// One round of a session.
#[derive(Debug, Clone)]
pub struct TurnRecord {
    pub turn: u32,
    pub state_summary: String,
    pub state_json: String,
    /// The model's answer without its action and note lines.
    pub agent_text: String,
    /// The first action, as `tool args`.
    pub action: Option<String>,
    /// What executing the action returned.
    pub result: Option<String>,
    pub success: bool,
    /// What the player typed, if anything.
    pub user_input: Option<String>,
    pub input_tokens: u64,
    pub output_tokens: u64,
}

/// `PathBuf::join` with a file name: an absolute name stands alone; otherwise
/// a `/` is put between unless the directory is empty or already ends in one.
pub open spec fn path_join(dir: Seq<char>, name: Seq<char>) -> Seq<char> {
    if starts_with(name, "/"@) || dir.len() == 0 {
        name
    } else if ends_with(dir, "/"@) {
        dir + name
    } else {
        dir + "/"@ + name
    }
}

/// Where sessions are kept.
#[derive(Debug, Clone)]
pub struct SessionStore {
    pub dir: String,
}

impl SessionStore {
    pub fn from_dir(dir: &str) -> (r: SessionStore)
        ensures
            r.dir@ == dir@,
    {
        SessionStore { dir: copy_str(dir) }
    }

    /// The file of session `id`: `<dir>/<id>.json`.
    pub fn session_path(&self, id: &str) -> (r: String)
        ensures
            r@ == path_join(self.dir@, id@ + ".json"@),
    {
        let mut name = copy_str(id);
        push_str(&mut name, ".json");
        join_path(self.dir.as_str(), name.as_str())
    }
}

/// `PathBuf::from(dir).join(name)`.
pub fn join_path(dir: &str, name: &str) -> (r: String)
    ensures
        r@ == path_join(dir@, name@),
{
    let nv = crate::text::chars_of(name);
    let dv = crate::text::chars_of(dir);
    let slash = crate::text::chars_of("/");
    if crate::text::vec_starts_with(&nv, &slash) || dv.len() == 0 {
        return copy_str(name);
    }
    let mut r = copy_str(dir);
    if !crate::text::vec_ends_with(&dv, &slash) {
        push_str(&mut r, "/");
    }
    push_str(&mut r, name);
    r
}

/// The notes file of a session: `<sessions_dir>/<id>_notes.md`.
pub fn notes_path(sessions_dir: &str, session_id: &str) -> (r: String)
    ensures
        r@ == sessions_dir@ + "/"@ + session_id@ + "_notes.md"@,
{
    let mut r = copy_str(sessions_dir);
    push_str(&mut r, "/");
    push_str(&mut r, session_id);
    push_str(&mut r, "_notes.md");
    r
}

/// `- note` for each note.
pub open spec fn note_items(notes: Seq<Seq<char>>) -> Seq<Seq<char>> {
    Seq::new(notes.len(), |i: int| "- "@ + notes[i])
}

/// A notes file with more notes appended, one `- note` line each, after a
/// line break if the file does not end with one.
pub open spec fn notes_file(existing: Seq<char>, notes: Seq<Seq<char>>) -> Seq<char> {
    let base = if existing.len() > 0 && !ends_with(existing, "\n"@) {
        existing + "\n"@
    } else {
        existing
    };
    base + join(note_items(notes), "\n"@) + "\n"@
}

/// The text of a notes file after appending notes.
pub fn notes_appended(existing: &str, notes: &Vec<String>) -> (r: String)
    ensures
        r@ == notes_file(existing@, views(notes@)),
{
    let mut items: Vec<String> = Vec::new();
    let mut i: usize = 0;
    while i < notes.len()
        invariant
            i <= notes@.len(),
            items@.len() == i,
            forall|k: int| 0 <= k < i ==> #[trigger] items@[k]@ == "- "@ + notes@[k]@,
        decreases notes@.len() - i,
    {
        let mut item = copy_str("- ");
        push_str(&mut item, notes[i].as_str());
        items.push(item);
        i = i + 1;
    }
    assert(views(items@) =~= note_items(views(notes@)));
    let ev = crate::text::chars_of(existing);
    let nl = crate::text::chars_of("\n");
    let mut r = copy_str(existing);
    if ev.len() > 0 && !crate::text::vec_ends_with(&ev, &nl) {
        push_str(&mut r, "\n");
    }
    let body = join_strings(&items, "\n");
    push_str(&mut r, body.as_str());
    push_str(&mut r, "\n");
    r
}

// ---------------------------------------------------------------------------
// The order of the session list
// ---------------------------------------------------------------------------

/// `order` lists positions of `keys` from the largest key down; positions
/// with equal keys stay in their order.
pub open spec fn newest_first_order(keys: Seq<u64>, order: Seq<usize>) -> bool {
    &&& forall|i: int, j: int| 0 <= i < j < order.len()
        ==> keys[order[i] as int] >= keys[order[j] as int]
    &&& forall|i: int, j: int| 0 <= i < j < order.len() && keys[order[i] as int] == keys[order[j] as int]
        ==> order[i] < order[j]
}

/// The order in which the sessions made at `created_at` are listed: the
/// newest first; sessions made at the same time keep their order.  The result
/// lists every position exactly once.
pub fn newest_first(created_at: &Vec<u64>) -> (r: Vec<usize>)
    ensures
        r@.len() == created_at@.len(),
        r@.no_duplicates(),
        forall|i: int| 0 <= i < r@.len() ==> #[trigger] r@[i] < created_at@.len(),
        newest_first_order(created_at@, r@),
{
    let n = created_at.len();
    let mut r: Vec<usize> = Vec::new();
    let mut k: usize = 0;
    while k < n
        invariant
            n == created_at@.len(),
            k <= n,
            r@.len() == k,
            r@.no_duplicates(),
            forall|i: int| 0 <= i < r@.len() ==> #[trigger] r@[i] < k,
            newest_first_order(created_at@, r@),
        decreases n - k,
    {
        let key = created_at[k];
        let mut p: usize = 0;
        while p < r.len() && created_at[r[p]] >= key
            invariant
                n == created_at@.len(),
                k < n,
                p <= r@.len(),
                forall|i: int| 0 <= i < r@.len() ==> #[trigger] r@[i] < k,
                forall|i: int| 0 <= i < p ==> created_at@[#[trigger] r@[i] as int] >= key,
            decreases r@.len() - p,
        {
            p = p + 1;
        }
        let mut out: Vec<usize> = Vec::new();
        let mut i: usize = 0;
        while i < p
            invariant
                p <= r@.len(),
                i <= p,
                out@ == r@.take(i as int),
            decreases p - i,
        {
            out.push(r[i]);
            i = i + 1;
        }
        out.push(k);
        while i < r.len()
            invariant
                p <= i <= r@.len(),
                out@ == r@.take(p as int).push(k) + r@.subrange(p as int, i as int),
            decreases r@.len() - i,
        {
            out.push(r[i]);
            i = i + 1;
            assert(out@ =~= r@.take(p as int).push(k) + r@.subrange(p as int, i as int));
        }
        proof {
            let old_r = r@;
            assert(out@ =~= old_r.take(p as int).push(k) + old_r.subrange(p as int, old_r.len() as int));
            lemma_insert_keeps_order(created_at@, old_r, p as int, k, out@);
        }
        r = out;
        k = k + 1;
    }
    r
}

/// Putting a new position `k`, larger than all listed, just before the first
/// listed position with a smaller key keeps the order.
proof fn lemma_insert_keeps_order(keys: Seq<u64>, r: Seq<usize>, p: int, k: usize, out: Seq<usize>)
    requires
        0 <= p <= r.len(),
        k < keys.len(),
        r.no_duplicates(),
        forall|i: int| 0 <= i < r.len() ==> #[trigger] r[i] < k,
        newest_first_order(keys, r),
        forall|i: int| 0 <= i < p ==> keys[#[trigger] r[i] as int] >= keys[k as int],
        p < r.len() ==> keys[r[p] as int] < keys[k as int],
        out == r.take(p).push(k) + r.subrange(p, r.len() as int),
    ensures
        out.len() == r.len() + 1,
        out.no_duplicates(),
        forall|i: int| 0 <= i < out.len() ==> #[trigger] out[i] < k + 1,
        newest_first_order(keys, out),
{
    assert(forall|i: int| 0 <= i < p ==> #[trigger] out[i] == r[i]);
    assert(out[p] == k);
    assert(forall|i: int| p < i < out.len() ==> #[trigger] out[i] == r[i - 1]);
    assert forall|i: int| p <= i < r.len() implies keys[#[trigger] r[i] as int] < keys[k as int] by {
        if i > p {
            assert(keys[r[p] as int] >= keys[r[i] as int]);
        }
    }
    assert forall|i: int, j: int| 0 <= i < j < out.len() implies out[i] != out[j] by {
        if i < p && j < p {
        } else if i < p && j == p {
        } else if i < p && j > p {
            assert(out[j] == r[j - 1]);
        } else if i == p {
            assert(out[j] == r[j - 1]);
        } else {
            assert(out[i] == r[i - 1] && out[j] == r[j - 1]);
        }
    }
    assert forall|i: int, j: int| 0 <= i < j < out.len()
        implies keys[out[i] as int] >= keys[out[j] as int]
        && (keys[out[i] as int] == keys[out[j] as int] ==> out[i] < out[j]) by {
        if i < p && j < p {
        } else if i < p && j == p {
        } else if i < p && j > p {
            assert(out[j] == r[j - 1]);
        } else if i == p {
            assert(out[j] == r[j - 1]);
        } else {
            assert(out[i] == r[i - 1] && out[j] == r[j - 1]);
        }
    }
}

} // verus!
