//! Looking things up in the game-knowledge tables: by name or internal id, in
//! the first column of each Markdown table, ignoring case and separators; with
//! a fall-back from a display name to the internal id found in the game state.
use vstd::prelude::*;

use crate::json::str_eq;
use crate::model::GameState;
use crate::text::{
    push_lit, push_vec,
    append_seq, chars_of, copy_str, join, join_vecs, lines, lowercase, slice_vec, split,
    starts_with, string_from_chars, take_up_to, take_up_to_vec, to_lowercase, trim, trim_start_char,
    trim_start_char_vec, trim_vec, utf8_len, utf8_len_exceeds, vec_contains, vec_lines,
    vec_split, vec_starts_with, vec_eq, contains, is_digit, char_utf8_len,
};
use crate::text::{
    ascii_lower, ascii_lower_char, ascii_upper, ascii_upper_char, find_char, first_at, is_ascii_char,
    is_ascii_str, is_ws, lead_ws, lemma_find_char_is, lemma_find_char_none, lemma_lead_ws_bound,
    lemma_trail_ws_bound, trail_ws, trim_end, trim_start,
};

verus! {

// ---------------------------------------------------------------------------
// Knowledge files
// ---------------------------------------------------------------------------

/// The game-knowledge directory as read from disk: whether it exists, and the
/// name and text of each file in it that could be read.
#[derive(Debug, Clone)]
pub struct KnowledgeBase {
    pub dir_exists: bool,
    pub files: Vec<(String, String)>,
}

/// The text of the first file named `name`.
pub open spec fn file_text(files: Seq<(String, String)>, name: Seq<char>) -> Option<Seq<char>>
    decreases files.len(),
{
    if files.len() == 0 {
        None
    } else if files[0].0@ == name {
        Some(files[0].1@)
    } else {
        file_text(files.drop_first(), name)
    }
}

impl KnowledgeBase {
    /// The text of the file `name`, if it could be read.
    pub fn file(&self, name: &str) -> (r: Option<&String>)
        ensures
            match r {
                Some(t) => file_text(self.files@, name@) == Some(t@),
                None => file_text(self.files@, name@) is None,
            },
    {
        let mut i: usize = 0;
        assert(self.files@.skip(0) =~= self.files@);
        while i < self.files.len()
            invariant
                i <= self.files@.len(),
                file_text(self.files@, name@) == file_text(self.files@.skip(i as int), name@),
            decreases self.files@.len() - i,
        {
            assert(self.files@.skip(i as int)[0] == self.files@[i as int]);
            if str_eq(self.files[i].0.as_str(), name) {
                return Some(&self.files[i].1);
            }
            assert(self.files@.skip(i as int).drop_first() =~= self.files@.skip(i + 1));
            i = i + 1;
        }
        None
    }
}

// ---------------------------------------------------------------------------
// Ids
// ---------------------------------------------------------------------------

pub open spec fn is_sep(c: char) -> bool {
    c == '_' || c == '-' || c == ' '
}

/// The characters that are not separators.
pub open spec fn remove_seps(s: Seq<char>) -> Seq<char>
    decreases s.len(),
{
    if s.len() == 0 {
        Seq::empty()
    } else {
        let r = remove_seps(s.drop_last());
        if is_sep(s.last()) {
            r
        } else {
            r.push(s.last())
        }
    }
}

/// An id for matching: lower-cased, without `_`, `-` and spaces.
pub open spec fn norm_id(s: Seq<char>) -> Seq<char> {
    remove_seps(lowercase(s))
}

/// The pieces longer than two bytes.
pub open spec fn long_pieces(ps: Seq<Seq<char>>) -> Seq<Seq<char>>
    decreases ps.len(),
{
    if ps.len() == 0 {
        Seq::empty()
    } else {
        let r = long_pieces(ps.drop_last());
        if utf8_len(ps.last()) > 2 {
            r.push(ps.last())
        } else {
            r
        }
    }
}

/// A card id without its short character-suffix pieces: `STRIKE_R` becomes
/// `STRIKE`.  An id made only of short pieces stays as it is.
pub open spec fn card_base_id(id: Seq<char>) -> Seq<char> {
    let kept = long_pieces(split(id, '_'));
    if kept.len() == 0 {
        id
    } else {
        join(kept, "_"@)
    }
}

/// The first cell of a Markdown table row.
pub open spec fn first_cell(row: Seq<char>) -> Seq<char> {
    trim(split(trim_start_char(row, '|'), '|')[0])
}

fn remove_seps_vec(v: &Vec<char>) -> (r: Vec<char>)
    ensures
        r@ == remove_seps(v@),
{
    let mut r: Vec<char> = Vec::new();
    let mut i: usize = 0;
    while i < v.len()
        invariant
            i <= v@.len(),
            r@ == remove_seps(v@.take(i as int)),
        decreases v@.len() - i,
    {
        proof {
            let t = v@.take(i + 1);
            assert(t.drop_last() =~= v@.take(i as int));
        }
        let c = v[i];
        if !(c == '_' || c == '-' || c == ' ') {
            r.push(c);
        }
        i = i + 1;
    }
    assert(v@.take(v@.len() as int) =~= v@);
    r
}

/// Lower-cases an id and drops its separators: `JAW_WORM_0` becomes `jawworm0`.
pub fn normalize_id(s: &str) -> (r: String)
    ensures
        r@ == norm_id(s@),
        is_ascii_str(s@) ==> r@ == remove_seps(ascii_lower(s@)),
{
    let l = to_lowercase(s);
    let v = chars_of(l.as_str());
    let r = remove_seps_vec(&v);
    string_from_chars(r.as_slice())
}

pub(crate) fn norm_id_vec(v: &Vec<char>) -> (r: Vec<char>)
    ensures
        r@ == norm_id(v@),
{
    let s = string_from_chars(v.as_slice());
    let n = normalize_id(s.as_str());
    chars_of(n.as_str())
}

/// Drops the short character-suffix pieces of a card id.
pub fn strip_card_suffix(id: &str) -> (r: String)
    ensures
        r@ == card_base_id(id@),
{
    let v = chars_of(id);
    let ps = vec_split(&v, '_');
    let ghost sp = split(v@, '_');
    let mut kept: Vec<Vec<char>> = Vec::new();
    let mut i: usize = 0;
    while i < ps.len()
        invariant
            sp == split(v@, '_'),
            ps@.len() == sp.len(),
            forall|k: int| 0 <= k < ps@.len() ==> #[trigger] ps@[k]@ == sp[k],
            i <= ps@.len(),
            kept@.map_values(|p: Vec<char>| p@) == long_pieces(sp.take(i as int)),
        decreases ps@.len() - i,
    {
        proof {
            let t = sp.take(i + 1);
            assert(t.drop_last() =~= sp.take(i as int));
            assert(t.last() == ps@[i as int]@);
        }
        if utf8_len_exceeds(&ps[i], 2) {
            let ghost before = kept@;
            let piece = slice_vec(&ps[i], 0, ps[i].len());
            assert(piece@ =~= ps@[i as int]@);
            kept.push(piece);
            proof {
                assert(kept@.map_values(|p: Vec<char>| p@) =~= before.map_values(
                    |p: Vec<char>| p@,
                ).push(ps@[i as int]@));
            }
        }
        i = i + 1;
    }
    assert(sp.take(ps@.len() as int) =~= sp);
    if kept.len() == 0 {
        copy_str(id)
    } else {
        let sep = chars_of("_");
        let j = join_vecs(&kept, &sep);
        string_from_chars(j.as_slice())
    }
}

fn first_cell_vec(row: &Vec<char>) -> (r: Vec<char>)
    ensures
        r@ == first_cell(row@),
{
    let t = trim_start_char_vec(row, '|');
    let ps = vec_split(&t, '|');
    proof {
        crate::text::lemma_split_nonempty(t@, '|');
    }
    trim_vec(&ps[0])
}

/// The first cell of a Markdown table row.
pub fn first_column(table_line: &str) -> (r: String)
    ensures
        r@ == first_cell(table_line@),
{
    let v = chars_of(table_line);
    let c = first_cell_vec(&v);
    string_from_chars(c.as_slice())
}

// ---------------------------------------------------------------------------
// Looking up a query
// ---------------------------------------------------------------------------

/// The knowledge files searched by a query, in order.
pub open spec fn table_file(i: int) -> Seq<char> {
    if i == 0 {
        "cards.md"@
    } else if i == 1 {
        "card-behaviors.md"@
    } else if i == 2 {
        "monsters.md"@
    } else if i == 3 {
        "monster-behaviors.md"@
    } else if i == 4 {
        "potions.md"@
    } else if i == 5 {
        "potion-behaviors.md"@
    } else if i == 6 {
        "events.md"@
    } else {
        "characters.md"@
    }
}

/// The label each file's hits are shown under.
pub open spec fn table_label(i: int) -> Seq<char> {
    if i == 0 {
        "卡牌"@
    } else if i == 1 {
        "卡牌行为"@
    } else if i == 2 {
        "敌人"@
    } else if i == 3 {
        "敌人行为"@
    } else if i == 4 {
        "药水"@
    } else if i == 5 {
        "药水行为"@
    } else if i == 6 {
        "事件"@
    } else {
        "角色"@
    }
}

/// Two normalized ids match when equal or when one holds the other.
pub open spec fn ids_match(a: Seq<char>, b: Seq<char>) -> bool {
    a == b || contains(a, b) || contains(b, a)
}

/// A table row whose first cell matches the query.
pub open spec fn query_hit(line: Seq<char>, norm: Seq<char>) -> bool {
    let t = trim(line);
    let nf = norm_id(first_cell(t));
    starts_with(t, "|"@) && !contains(t, "---"@) && nf.len() > 0 && ids_match(nf, norm)
}

/// A table row matches a query exactly when it is a data row (it starts
/// with `|`, is no `---` separator and has a non-empty normalized first
/// cell) whose normalized first cell equals the normalized query, contains
/// it, or is contained in it.  So a query that holds a row's id, such as
/// `Bash+` for the row `Bash`, finds that row, as does a part of the id.
pub proof fn lemma_query_hit(line: Seq<char>, norm: Seq<char>)
    ensures
        ({
            let t = trim(line);
            let nf = norm_id(first_cell(t));
            let row = starts_with(t, "|"@) && !contains(t, "---"@) && nf.len() > 0;
            &&& row && contains(norm, nf) ==> query_hit(line, norm)
            &&& row && contains(nf, norm) ==> query_hit(line, norm)
            &&& row && nf == norm ==> query_hit(line, norm)
            &&& query_hit(line, norm) ==> row && (nf == norm || contains(nf, norm) || contains(
                norm,
                nf,
            ))
        }),
{
}

/// The trimmed rows of a table text that match the query.
pub open spec fn query_hits(ls: Seq<Seq<char>>, norm: Seq<char>) -> Seq<Seq<char>>
    decreases ls.len(),
{
    if ls.len() == 0 {
        Seq::empty()
    } else {
        let r = query_hits(ls.drop_last(), norm);
        if query_hit(ls.last(), norm) {
            r.push(trim(ls.last()))
        } else {
            r
        }
    }
}

/// The labelled hits of the `i`th knowledge file.
pub open spec fn query_section(kb: KnowledgeBase, i: int, norm: Seq<char>) -> Seq<char> {
    match file_text(kb.files@, table_file(i)) {
        None => Seq::empty(),
        Some(content) => {
            let hits = query_hits(lines(content), norm);
            if hits.len() == 0 {
                Seq::empty()
            } else {
                "["@ + table_label(i) + "]\n"@ + join(hits, "\n"@) + "\n"@
            }
        },
    }
}

/// The sections of the first `n` knowledge files.
pub open spec fn query_sections(kb: KnowledgeBase, n: int, norm: Seq<char>) -> Seq<char>
    decreases n,
{
    if n <= 0 {
        Seq::empty()
    } else {
        query_sections(kb, n - 1, norm) + query_section(kb, n - 1, norm)
    }
}

/// What a lookup of `query` returns: the labelled matching rows of every
/// knowledge file, cut to 1500 characters (marked by a trailing `...` line)
/// when longer than that; empty when the directory is missing or the query
/// normalizes to nothing.
pub open spec fn query_result(query: Seq<char>, kb: KnowledgeBase) -> Seq<char> {
    key_result(norm_id(card_base_id(trim(query))), kb)
}

/// What a lookup by the matching key `norm` returns.
pub open spec fn key_result(norm: Seq<char>, kb: KnowledgeBase) -> Seq<char> {
    if !kb.dir_exists || norm.len() == 0 {
        Seq::empty()
    } else {
        let out = query_sections(kb, 8, norm);
        if out.len() > 1500 {
            out.take(1500) + "\n..."@
        } else {
            out
        }
    }
}

fn table_file_of(i: usize) -> (r: String)
    ensures
        r@ == table_file(i as int),
{
    if i == 0 {
        copy_str("cards.md")
    } else if i == 1 {
        copy_str("card-behaviors.md")
    } else if i == 2 {
        copy_str("monsters.md")
    } else if i == 3 {
        copy_str("monster-behaviors.md")
    } else if i == 4 {
        copy_str("potions.md")
    } else if i == 5 {
        copy_str("potion-behaviors.md")
    } else if i == 6 {
        copy_str("events.md")
    } else {
        copy_str("characters.md")
    }
}

fn table_label_of(i: usize) -> (r: String)
    ensures
        r@ == table_label(i as int),
{
    if i == 0 {
        copy_str("卡牌")
    } else if i == 1 {
        copy_str("卡牌行为")
    } else if i == 2 {
        copy_str("敌人")
    } else if i == 3 {
        copy_str("敌人行为")
    } else if i == 4 {
        copy_str("药水")
    } else if i == 5 {
        copy_str("药水行为")
    } else if i == 6 {
        copy_str("事件")
    } else {
        copy_str("角色")
    }
}

fn ids_match_vec(a: &Vec<char>, b: &Vec<char>) -> (r: bool)
    ensures
        r == ids_match(a@, b@),
{
    vec_eq(a, b) || vec_contains(a, b) || vec_contains(b, a)
}

fn query_hit_vec(line: &Vec<char>, norm: &Vec<char>) -> (r: Option<Vec<char>>)
    ensures
        match r {
            Some(t) => query_hit(line@, norm@) && t@ == trim(line@),
            None => !query_hit(line@, norm@),
        },
{
    let t = trim_vec(line);
    let bar = chars_of("|");
    let dashes = chars_of("---");
    if !vec_starts_with(&t, &bar) || vec_contains(&t, &dashes) {
        return None;
    }
    let fc = first_cell_vec(&t);
    let nf = norm_id_vec(&fc);
    if nf.len() > 0 && ids_match_vec(&nf, norm) {
        Some(t)
    } else {
        None
    }
}

fn query_hits_vec(content: &String, norm: &Vec<char>) -> (r: Vec<Vec<char>>)
    ensures
        r@.map_values(|p: Vec<char>| p@) == query_hits(lines(content@), norm@),
{
    let cv = chars_of(content.as_str());
    let ls = vec_lines(&cv);
    let ghost big_l = lines(content@);
    let mut hits: Vec<Vec<char>> = Vec::new();
    let mut i: usize = 0;
    while i < ls.len()
        invariant
            big_l == lines(content@),
            ls@.len() == big_l.len(),
            forall|k: int| 0 <= k < ls@.len() ==> #[trigger] ls@[k]@ == big_l[k],
            i <= ls@.len(),
            hits@.map_values(|p: Vec<char>| p@) == query_hits(big_l.take(i as int), norm@),
        decreases ls@.len() - i,
    {
        proof {
            let t = big_l.take(i + 1);
            assert(t.drop_last() =~= big_l.take(i as int));
            assert(t.last() == ls@[i as int]@);
        }
        match query_hit_vec(&ls[i], norm) {
            Some(t) => {
                let ghost before = hits@;
                hits.push(t);
                proof {
                    assert(hits@.map_values(|p: Vec<char>| p@) =~= before.map_values(
                        |p: Vec<char>| p@,
                    ).push(trim(big_l[i as int])));
                }
            },
            None => {},
        }
        i = i + 1;
    }
    assert(big_l.take(ls@.len() as int) =~= big_l);
    hits
}

/// Looks a name or internal id up in every knowledge table.
pub fn lookup_query(query: &str, kb: &KnowledgeBase) -> (r: String)
    ensures
        r@ == query_result(query@, *kb),
        is_ascii_str(query@) ==> r@ == key_result(ascii_key(query@), *kb),
{
    let qv = chars_of(query);
    let qt = trim_vec(&qv);
    let qs = string_from_chars(qt.as_slice());
    let base = strip_card_suffix(qs.as_str());
    proof {
        if is_ascii_str(query@) {
            lemma_base_id_ascii(query@);
        }
    }
    let norm_s = normalize_id(base.as_str());
    let norm = chars_of(norm_s.as_str());
    if !kb.dir_exists || norm.len() == 0 {
        return String::new();
    }
    let mut out: Vec<char> = Vec::new();
    let mut i: usize = 0;
    while i < 8
        invariant
            i <= 8,
            norm@ == norm_id(card_base_id(trim(query@))),
            is_ascii_str(query@) ==> norm@ == ascii_key(query@),
            out@ == query_sections(*kb, i as int, norm@),
        decreases 8 - i,
    {
        let name = table_file_of(i);
        match kb.file(name.as_str()) {
            Some(content) => {
                let hits = query_hits_vec(content, &norm);
                if hits.len() > 0 {
                    push_lit(&mut out, "[");
                    let label = table_label_of(i);
                    let lv = chars_of(label.as_str());
                    push_vec(&mut out, &lv);
                    push_lit(&mut out, "]\n");
                    let nl = chars_of("\n");
                    let j = join_vecs(&hits, &nl);
                    push_vec(&mut out, &j);
                    push_lit(&mut out, "\n");
                    proof {
                        assert(out@ =~= query_sections(*kb, i as int + 1, norm@));
                    }
                } else {
                    assert(out@ =~= query_sections(*kb, i as int + 1, norm@));
                }
            },
            None => {
                assert(out@ =~= query_sections(*kb, i as int + 1, norm@));
            },
        }
        i = i + 1;
    }
    if out.len() > 1500 {
        let mut cut = take_up_to_vec(&out, 1500);
        push_lit(&mut cut, "\n...");
        string_from_chars(cut.as_slice())
    } else {
        string_from_chars(out.as_slice())
    }
}


// ---------------------------------------------------------------------------
// Display names
// ---------------------------------------------------------------------------

/// A name for comparison: trimmed and lower-cased.
pub open spec fn name_key(s: Seq<char>) -> Seq<char> {
    lowercase(trim(s))
}

pub open spec fn is_digit_or_us(c: char) -> bool {
    is_digit(c) || c == '_'
}

/// Number of trailing ASCII digits and underscores.
pub open spec fn trail_digit_us(s: Seq<char>) -> nat
    decreases s.len(),
{
    if s.len() > 0 && is_digit_or_us(s.last()) {
        1 + trail_digit_us(s.drop_last())
    } else {
        0
    }
}

/// An enemy's entity id without its instance suffix: `JAW_WORM_0` becomes `JAW_WORM`.
pub open spec fn enemy_base_id(eid: Seq<char>) -> Seq<char> {
    eid.take(eid.len() - trail_digit_us(eid))
}

pub open spec fn hand_id(hand: Seq<crate::model::Card>, target: Seq<char>) -> Option<Seq<char>>
    decreases hand.len(),
{
    if hand.len() == 0 {
        None
    } else if name_key(hand[0].name@) == target && hand[0].id@.len() > 0 {
        Some(card_base_id(hand[0].id@))
    } else {
        hand_id(hand.drop_first(), target)
    }
}

pub open spec fn relic_id(relics: Seq<crate::model::Relic>, target: Seq<char>) -> Option<Seq<char>>
    decreases relics.len(),
{
    if relics.len() == 0 {
        None
    } else if name_key(relics[0].name@) == target && relics[0].id@.len() > 0 {
        Some(relics[0].id@)
    } else {
        relic_id(relics.drop_first(), target)
    }
}

pub open spec fn potion_id(potions: Seq<crate::model::Potion>, target: Seq<char>) -> Option<Seq<char>>
    decreases potions.len(),
{
    if potions.len() == 0 {
        None
    } else if name_key(potions[0].name@) == target && potions[0].id@.len() > 0 {
        Some(potions[0].id@)
    } else {
        potion_id(potions.drop_first(), target)
    }
}

pub open spec fn enemy_id(enemies: Seq<crate::model::Enemy>, target: Seq<char>) -> Option<Seq<char>>
    decreases enemies.len(),
{
    if enemies.len() == 0 {
        None
    } else if name_key(enemies[0].name@) == target && enemies[0].entity_id@.len() > 0
        && enemy_base_id(enemies[0].entity_id@).len() > 0 {
        Some(enemy_base_id(enemies[0].entity_id@))
    } else {
        enemy_id(enemies.drop_first(), target)
    }
}

/// The internal id of the hand card, relic, potion or enemy (searched in that
/// order) whose display name is `name`.
pub open spec fn display_name_id(gs: GameState, name: Seq<char>) -> Option<Seq<char>> {
    let target = name_key(name);
    if target.len() == 0 {
        None
    } else {
        let from_player = match gs.player {
            Some(p) => {
                let h = match p.hand {
                    Some(hand) => hand_id(hand@, target),
                    None => None,
                };
                if h is Some {
                    h
                } else if relic_id(p.relics@, target) is Some {
                    relic_id(p.relics@, target)
                } else {
                    potion_id(p.potions@, target)
                }
            },
            None => None,
        };
        if from_player is Some {
            from_player
        } else {
            match gs.battle {
                Some(b) => enemy_id(b.enemies@, target),
                None => None,
            }
        }
    }
}

/// What a smart lookup returns: the query actually used and its result.  The
/// query is looked up as given; when that finds nothing and it is the display
/// name of something in the game state, its internal id is looked up instead.
pub open spec fn smart_result(query: Seq<char>, gs: GameState, kb: KnowledgeBase) -> (
    Seq<char>,
    Seq<char>,
) {
    let direct = query_result(query, kb);
    if direct.len() > 0 {
        (query, direct)
    } else {
        match display_name_id(gs, query) {
            Some(id) => if query_result(id, kb).len() > 0 {
                (id, query_result(id, kb))
            } else {
                (query, Seq::empty())
            },
            None => (query, Seq::empty()),
        }
    }
}

fn name_key_of(s: &String) -> (r: Vec<char>)
    ensures
        r@ == name_key(s@),
{
    let v = chars_of(s.as_str());
    let t = trim_vec(&v);
    let ts = string_from_chars(t.as_slice());
    let l = to_lowercase(ts.as_str());
    chars_of(l.as_str())
}

fn is_digit_or_us_exec(c: char) -> (b: bool)
    ensures
        b == is_digit_or_us(c),
{
    ('0' <= c && c <= '9') || c == '_'
}

pub(crate) fn enemy_base_id_vec(v: &Vec<char>) -> (r: Vec<char>)
    ensures
        r@ == enemy_base_id(v@),
{
    let mut k: usize = 0;
    while k < v.len() && is_digit_or_us_exec(v[v.len() - 1 - k])
        invariant
            k <= v@.len(),
            forall|j: int| v@.len() - k <= j < v@.len() ==> is_digit_or_us(#[trigger] v@[j]),
        decreases v@.len() - k,
    {
        k = k + 1;
    }
    proof {
        lemma_trail_digit_us_is(v@, k as int);
    }
    slice_vec(v, 0, v.len() - k)
}

proof fn lemma_trail_digit_us_is(s: Seq<char>, k: int)
    requires
        0 <= k <= s.len(),
        forall|j: int| s.len() - k <= j < s.len() ==> is_digit_or_us(#[trigger] s[j]),
        k == s.len() || !is_digit_or_us(s[s.len() - k - 1]),
    ensures
        trail_digit_us(s) == k,
    decreases k,
{
    if k > 0 {
        let t = s.drop_last();
        assert forall|j: int| t.len() - (k - 1) <= j < t.len() implies is_digit_or_us(#[trigger] t[j]) by {
            assert(t[j] == s[j]);
        }
        if k - 1 < t.len() {
            assert(t[t.len() - (k - 1) - 1] == s[s.len() - k - 1]);
        }
        lemma_trail_digit_us_is(t, k - 1);
    }
}

fn hand_id_exec(hand: &Vec<crate::model::Card>, target: &Vec<char>) -> (r: Option<String>)
    ensures
        match r {
            Some(x) => hand_id(hand@, target@) == Some(x@),
            None => hand_id(hand@, target@) is None,
        },
{
    let mut i: usize = 0;
    assert(hand@.skip(0) =~= hand@);
    while i < hand.len()
        invariant
            i <= hand@.len(),
            hand_id(hand@, target@) == hand_id(hand@.skip(i as int), target@),
        decreases hand@.len() - i,
    {
        assert(hand@.skip(i as int)[0] == hand@[i as int]);
        let k = name_key_of(&hand[i].name);
        if vec_eq(&k, target) && !hand[i].id.as_str().is_empty() {
            return Some(strip_card_suffix(hand[i].id.as_str()));
        }
        assert(hand@.skip(i as int).drop_first() =~= hand@.skip(i + 1));
        i = i + 1;
    }
    None
}

fn relic_id_exec(relics: &Vec<crate::model::Relic>, target: &Vec<char>) -> (r: Option<String>)
    ensures
        match r {
            Some(x) => relic_id(relics@, target@) == Some(x@),
            None => relic_id(relics@, target@) is None,
        },
{
    let mut i: usize = 0;
    assert(relics@.skip(0) =~= relics@);
    while i < relics.len()
        invariant
            i <= relics@.len(),
            relic_id(relics@, target@) == relic_id(relics@.skip(i as int), target@),
        decreases relics@.len() - i,
    {
        assert(relics@.skip(i as int)[0] == relics@[i as int]);
        let k = name_key_of(&relics[i].name);
        if vec_eq(&k, target) && !relics[i].id.as_str().is_empty() {
            return Some(copy_str(relics[i].id.as_str()));
        }
        assert(relics@.skip(i as int).drop_first() =~= relics@.skip(i + 1));
        i = i + 1;
    }
    None
}

fn potion_id_exec(potions: &Vec<crate::model::Potion>, target: &Vec<char>) -> (r: Option<String>)
    ensures
        match r {
            Some(x) => potion_id(potions@, target@) == Some(x@),
            None => potion_id(potions@, target@) is None,
        },
{
    let mut i: usize = 0;
    assert(potions@.skip(0) =~= potions@);
    while i < potions.len()
        invariant
            i <= potions@.len(),
            potion_id(potions@, target@) == potion_id(potions@.skip(i as int), target@),
        decreases potions@.len() - i,
    {
        assert(potions@.skip(i as int)[0] == potions@[i as int]);
        let k = name_key_of(&potions[i].name);
        if vec_eq(&k, target) && !potions[i].id.as_str().is_empty() {
            return Some(copy_str(potions[i].id.as_str()));
        }
        assert(potions@.skip(i as int).drop_first() =~= potions@.skip(i + 1));
        i = i + 1;
    }
    None
}

fn enemy_id_exec(enemies: &Vec<crate::model::Enemy>, target: &Vec<char>) -> (r: Option<String>)
    ensures
        match r {
            Some(x) => enemy_id(enemies@, target@) == Some(x@),
            None => enemy_id(enemies@, target@) is None,
        },
{
    let mut i: usize = 0;
    assert(enemies@.skip(0) =~= enemies@);
    while i < enemies.len()
        invariant
            i <= enemies@.len(),
            enemy_id(enemies@, target@) == enemy_id(enemies@.skip(i as int), target@),
        decreases enemies@.len() - i,
    {
        assert(enemies@.skip(i as int)[0] == enemies@[i as int]);
        let k = name_key_of(&enemies[i].name);
        if vec_eq(&k, target) && !enemies[i].entity_id.as_str().is_empty() {
            let ev = chars_of(enemies[i].entity_id.as_str());
            let b = enemy_base_id_vec(&ev);
            if b.len() > 0 {
                return Some(string_from_chars(b.as_slice()));
            }
        }
        assert(enemies@.skip(i as int).drop_first() =~= enemies@.skip(i + 1));
        i = i + 1;
    }
    None
}

/// The internal id of the thing in the game state whose display name is `name`.
pub fn find_id_by_display_name(gs: &GameState, name: &str) -> (r: Option<String>)
    ensures
        match r {
            Some(x) => display_name_id(*gs, name@) == Some(x@),
            None => display_name_id(*gs, name@) is None,
        },
{
    let ns = copy_str(name);
    let target = name_key_of(&ns);
    if target.len() == 0 {
        return None;
    }
    match &gs.player {
        Some(p) => {
            match &p.hand {
                Some(hand) => match hand_id_exec(hand, &target) {
                    Some(x) => return Some(x),
                    None => {},
                },
                None => {},
            }
            match relic_id_exec(&p.relics, &target) {
                Some(x) => return Some(x),
                None => {},
            }
            match potion_id_exec(&p.potions, &target) {
                Some(x) => return Some(x),
                None => {},
            }
        },
        None => {},
    }
    match &gs.battle {
        Some(b) => enemy_id_exec(&b.enemies, &target),
        None => None,
    }
}

/// Looks a query up as given, falling back to the internal id of the thing
/// whose display name it is.  Returns the query used and the result.
pub fn lookup_query_smart(query: &str, gs: &GameState, kb: &KnowledgeBase) -> (r: (String, String))
    ensures
        (r.0@, r.1@) == smart_result(query@, *gs, *kb),
{
    let direct = lookup_query(query, kb);
    if !direct.as_str().is_empty() {
        return (copy_str(query), direct);
    }
    match find_id_by_display_name(gs, query) {
        Some(id) => {
            let r = lookup_query(id.as_str(), kb);
            if !r.as_str().is_empty() {
                (id, r)
            } else {
                (copy_str(query), String::new())
            }
        },
        None => (copy_str(query), String::new()),
    }
}

/// The result of one lookup: the query actually used and what it found.
#[derive(Debug, Clone)]
pub struct LookupOutcome {
    pub used: String,
    pub result: String,
}

/// One smart lookup, as the agent performs it on the model's request.
pub fn perform_lookup(query: &str, gs: &GameState, kb: &KnowledgeBase) -> (r: LookupOutcome)
    ensures
        (r.used@, r.result@) == smart_result(query@, *gs, *kb),
{
    let (used, result) = lookup_query_smart(query, gs, kb);
    LookupOutcome { used, result }
}

// ---------------------------------------------------------------------------
// Rows of one table by a list of ids
// ---------------------------------------------------------------------------

/// Whether a normalized first cell matches one of the normalized ids.
pub open spec fn any_id_matches(ids: Seq<Seq<char>>, nf: Seq<char>) -> bool {
    exists|i: int| 0 <= i < ids.len() && ids_match(nf, #[trigger] ids[i])
}

/// Scans a table text line by line: whether the scan is inside a table (past
/// its header) and the trimmed rows whose first cell matches one of the ids.
pub open spec fn table_scan(ls: Seq<Seq<char>>, ids: Seq<Seq<char>>) -> (bool, Seq<Seq<char>>)
    decreases ls.len(),
{
    if ls.len() == 0 {
        (false, Seq::empty())
    } else {
        let (in_table, hits) = table_scan(ls.drop_last(), ids);
        let t = trim(ls.last());
        if !starts_with(t, "|"@) {
            (false, hits)
        } else if contains(t, "---"@) {
            (true, hits)
        } else if !in_table && contains(lowercase(t), "name"@) {
            (true, hits)
        } else if any_id_matches(ids, norm_id(first_cell(t))) {
            (in_table, hits.push(t))
        } else {
            (in_table, hits)
        }
    }
}

/// The rows of a table file that match one of the ids, one per line; empty
/// when the file could not be read.
pub open spec fn table_rows(ids: Seq<Seq<char>>, content: Option<Seq<char>>) -> Seq<char> {
    match content {
        None => Seq::empty(),
        Some(c) => join(
            table_scan(lines(c), ids.map_values(|id: Seq<char>| norm_id(id))).1,
            "\n"@,
        ),
    }
}

fn any_id_matches_vec(ids: &Vec<Vec<char>>, nf: &Vec<char>) -> (r: bool)
    ensures
        r == any_id_matches(ids@.map_values(|p: Vec<char>| p@), nf@),
{
    let ghost v = ids@.map_values(|p: Vec<char>| p@);
    let mut i: usize = 0;
    while i < ids.len()
        invariant
            v == ids@.map_values(|p: Vec<char>| p@),
            i <= ids@.len(),
            forall|j: int| 0 <= j < i ==> !ids_match(nf@, #[trigger] v[j]),
        decreases ids@.len() - i,
    {
        if ids_match_vec(nf, &ids[i]) {
            assert(v[i as int] == ids@[i as int]@);
            return true;
        }
        i = i + 1;
    }
    false
}

/// The text of an optional string, by its view.
pub open spec fn opt_string_view(o: Option<&String>) -> Option<Seq<char>> {
    match o {
        Some(c) => Some(c@),
        None => None,
    }
}

/// The text of an optional string slice, by its view.
pub open spec fn opt_str_view(o: Option<&str>) -> Option<Seq<char>> {
    match o {
        Some(c) => Some(c@),
        None => None,
    }
}

/// The rows of a table text whose first cell matches one of the ids.
pub fn lookup_in_table(ids: &Vec<String>, content: Option<&String>) -> (r: String)
    ensures
        r@ == table_rows(ids@.map_values(|s: String| s@), opt_string_view(content)),
{
    let c = match content {
        Some(c) => c,
        None => return String::new(),
    };
    let ghost sids = ids@.map_values(|s: String| s@);
    let ghost nids = sids.map_values(|id: Seq<char>| norm_id(id));
    let mut norm: Vec<Vec<char>> = Vec::new();
    let mut k: usize = 0;
    while k < ids.len()
        invariant
            sids == ids@.map_values(|s: String| s@),
            nids == sids.map_values(|id: Seq<char>| norm_id(id)),
            k <= ids@.len(),
            norm@.len() == k,
            forall|j: int| 0 <= j < k ==> #[trigger] norm@[j]@ == nids[j],
        decreases ids@.len() - k,
    {
        let idv = chars_of(ids[k].as_str());
        norm.push(norm_id_vec(&idv));
        k = k + 1;
    }
    assert(norm@.map_values(|p: Vec<char>| p@) =~= nids);
    let cv = chars_of(c.as_str());
    let ls = vec_lines(&cv);
    let ghost big_l = lines(c@);
    let mut in_table = false;
    let mut hits: Vec<Vec<char>> = Vec::new();
    let mut i: usize = 0;
    while i < ls.len()
        invariant
            big_l == lines(c@),
            ls@.len() == big_l.len(),
            forall|j: int| 0 <= j < ls@.len() ==> #[trigger] ls@[j]@ == big_l[j],
            norm@.map_values(|p: Vec<char>| p@) == nids,
            i <= ls@.len(),
            (in_table, hits@.map_values(|p: Vec<char>| p@)) == table_scan(big_l.take(i as int), nids),
        decreases ls@.len() - i,
    {
        proof {
            let t = big_l.take(i + 1);
            assert(t.drop_last() =~= big_l.take(i as int));
            assert(t.last() == ls@[i as int]@);
        }
        let ghost before = hits@;
        let t = trim_vec(&ls[i]);
        let bar = chars_of("|");
        let dashes = chars_of("---");
        if !vec_starts_with(&t, &bar) {
            in_table = false;
        } else if vec_contains(&t, &dashes) {
            in_table = true;
        } else {
            let ts = string_from_chars(t.as_slice());
            let low = to_lowercase(ts.as_str());
            let lowv = chars_of(low.as_str());
            let name = chars_of("name");
            if !in_table && vec_contains(&lowv, &name) {
                in_table = true;
            } else {
                let fc = first_cell_vec(&t);
                let nf = norm_id_vec(&fc);
                if any_id_matches_vec(&norm, &nf) {
                    hits.push(t);
                    proof {
                        assert(hits@.map_values(|p: Vec<char>| p@) =~= before.map_values(
                            |p: Vec<char>| p@,
                        ).push(trim(big_l[i as int])));
                    }
                }
            }
        }
        i = i + 1;
    }
    assert(big_l.take(ls@.len() as int) =~= big_l);
    let nl = chars_of("\n");
    let j = join_vecs(&hits, &nl);
    string_from_chars(j.as_slice())
}

// ---------------------------------------------------------------------------
// Wiki fall-back
// ---------------------------------------------------------------------------

/// What a wiki search answer is shown as: trimmed, cut to 1000 characters
/// (marked by a trailing `...` line); empty for no answer, an empty answer or
/// one that starts with `Error`.
pub open spec fn wiki_excerpt(answer: Option<Seq<char>>) -> Seq<char> {
    match answer {
        None => Seq::empty(),
        Some(text) => {
            let t = trim(text);
            if t.len() == 0 || starts_with(t, "Error"@) {
                Seq::empty()
            } else if t.len() > 1000 {
                t.take(1000) + "\n..."@
            } else {
                t
            }
        },
    }
}

/// Formats the answer of a wiki search (`None` when the search failed).
pub fn format_wiki_answer(answer: Option<&str>) -> (r: String)
    ensures
        r@ == wiki_excerpt(opt_str_view(answer)),
{
    let a = match answer {
        Some(a) => a,
        None => return String::new(),
    };
    let v = chars_of(a);
    let t = trim_vec(&v);
    let err = chars_of("Error");
    if t.len() == 0 || vec_starts_with(&t, &err) {
        return String::new();
    }
    if t.len() > 1000 {
        let mut cut = slice_vec(&t, 0, 1000);
        push_lit(&mut cut, "\n...");
        string_from_chars(cut.as_slice())
    } else {
        string_from_chars(t.as_slice())
    }
}

// ---------------------------------------------------------------------------
// Case in queries
// ---------------------------------------------------------------------------

/// The matching key of an ASCII query: the base id of the trimmed query,
/// ASCII lower-cased, without separators.
pub open spec fn ascii_key(query: Seq<char>) -> Seq<char> {
    remove_seps(ascii_lower(card_base_id(trim(query))))
}

proof fn lemma_upper_char(c: char)
    ensures
        is_ws(ascii_upper_char(c)) == is_ws(c),
        (ascii_upper_char(c) == '_') == (c == '_'),
        char_utf8_len(ascii_upper_char(c)) == char_utf8_len(c),
        ascii_lower_char(ascii_upper_char(c)) == ascii_lower_char(c),
        is_ascii_char(c) ==> is_ascii_char(ascii_upper_char(c)),
{
}

proof fn lemma_upper_lead_ws(s: Seq<char>)
    ensures
        lead_ws(ascii_upper(s)) == lead_ws(s),
    decreases s.len(),
{
    if s.len() > 0 {
        lemma_upper_char(s[0]);
        assert(ascii_upper(s).drop_first() =~= ascii_upper(s.drop_first()));
        lemma_upper_lead_ws(s.drop_first());
    }
}

proof fn lemma_upper_trail_ws(s: Seq<char>)
    ensures
        trail_ws(ascii_upper(s)) == trail_ws(s),
    decreases s.len(),
{
    if s.len() > 0 {
        lemma_upper_char(s.last());
        assert(ascii_upper(s).drop_last() =~= ascii_upper(s.drop_last()));
        lemma_upper_trail_ws(s.drop_last());
    }
}

proof fn lemma_upper_trim(s: Seq<char>)
    ensures
        trim(ascii_upper(s)) == ascii_upper(trim(s)),
{
    lemma_upper_lead_ws(s);
    lemma_lead_ws_bound(s);
    let t = trim_start(s);
    assert(trim_start(ascii_upper(s)) =~= ascii_upper(t));
    lemma_upper_trail_ws(t);
    lemma_trail_ws_bound(t);
    assert(trim_end(ascii_upper(t)) =~= ascii_upper(trim_end(t)));
}

proof fn lemma_upper_find(s: Seq<char>)
    ensures
        find_char(ascii_upper(s), '_') == find_char(s, '_'),
{
    let u = ascii_upper(s);
    assert forall|j: int| 0 <= j < s.len() implies (#[trigger] u[j] == '_') == (s[j] == '_') by {
        lemma_upper_char(s[j]);
    }
    if exists|k: int| first_at(s, '_', k) {
        let k = choose|k: int| first_at(s, '_', k);
        assert(first_at(u, '_', k));
        lemma_find_char_is(s, '_', k);
        lemma_find_char_is(u, '_', k);
    } else {
        assert forall|j: int| 0 <= j < s.len() implies s[j] != '_' by {
            if s[j] == '_' {
                lemma_first_sep(s, j);
            }
        }
        lemma_find_char_none(s, '_');
        lemma_find_char_none(u, '_');
    }
}

/// A text with `_` at `j` has a first `_`.
proof fn lemma_first_sep(s: Seq<char>, j: int)
    requires
        0 <= j < s.len(),
        s[j] == '_',
    ensures
        exists|k: int| first_at(s, '_', k),
    decreases j,
{
    if forall|m: int| 0 <= m < j ==> s[m] != '_' {
        assert(first_at(s, '_', j));
    } else {
        let m = choose|m: int| 0 <= m < j && s[m] == '_';
        lemma_first_sep(s, m);
    }
}

proof fn lemma_upper_split(s: Seq<char>)
    ensures
        split(ascii_upper(s), '_') == split(s, '_').map_values(|p: Seq<char>| ascii_upper(p)),
    decreases s.len(),
{
    lemma_upper_find(s);
    let u = ascii_upper(s);
    match find_char(s, '_') {
        Some(i) => {
            if 0 <= i < s.len() {
                assert(u.take(i) =~= ascii_upper(s.take(i)));
                assert(u.skip(i + 1) =~= ascii_upper(s.skip(i + 1)));
                lemma_upper_split(s.skip(i + 1));
                let rest = split(s.skip(i + 1), '_');
                assert((seq![s.take(i)] + rest).map_values(|p: Seq<char>| ascii_upper(p)) =~= seq![
                    ascii_upper(s.take(i)),
                ] + rest.map_values(|p: Seq<char>| ascii_upper(p)));
            } else {
                assert(seq![s].map_values(|p: Seq<char>| ascii_upper(p)) =~= seq![u]);
            }
        },
        None => {
            assert(seq![s].map_values(|p: Seq<char>| ascii_upper(p)) =~= seq![u]);
        },
    }
}

proof fn lemma_upper_utf8_len(s: Seq<char>)
    ensures
        utf8_len(ascii_upper(s)) == utf8_len(s),
    decreases s.len(),
{
    if s.len() > 0 {
        lemma_upper_char(s.last());
        assert(ascii_upper(s).drop_last() =~= ascii_upper(s.drop_last()));
        lemma_upper_utf8_len(s.drop_last());
    }
}

proof fn lemma_upper_long_pieces(ps: Seq<Seq<char>>)
    ensures
        long_pieces(ps.map_values(|p: Seq<char>| ascii_upper(p))) == long_pieces(ps).map_values(
            |p: Seq<char>| ascii_upper(p),
        ),
    decreases ps.len(),
{
    let us = ps.map_values(|p: Seq<char>| ascii_upper(p));
    if ps.len() > 0 {
        assert(us.drop_last() =~= ps.drop_last().map_values(|p: Seq<char>| ascii_upper(p)));
        lemma_upper_long_pieces(ps.drop_last());
        lemma_upper_utf8_len(ps.last());
        let r = long_pieces(ps.drop_last());
        assert(r.push(ps.last()).map_values(|p: Seq<char>| ascii_upper(p)) =~= r.map_values(
            |p: Seq<char>| ascii_upper(p),
        ).push(ascii_upper(ps.last())));
    } else {
        assert(us =~= Seq::<Seq<char>>::empty());
        assert(long_pieces(ps).map_values(|p: Seq<char>| ascii_upper(p)) =~= Seq::<
            Seq<char>,
        >::empty());
    }
}

proof fn lemma_upper_join(ps: Seq<Seq<char>>)
    ensures
        join(ps.map_values(|p: Seq<char>| ascii_upper(p)), "_"@) == ascii_upper(join(ps, "_"@)),
    decreases ps.len(),
{
    reveal_strlit("_");
    let us = ps.map_values(|p: Seq<char>| ascii_upper(p));
    if ps.len() == 0 {
        assert(ascii_upper(Seq::<char>::empty()) =~= Seq::<char>::empty());
    } else if ps.len() > 1 {
        assert(us.drop_last() =~= ps.drop_last().map_values(|p: Seq<char>| ascii_upper(p)));
        lemma_upper_join(ps.drop_last());
        let j = join(ps.drop_last(), "_"@);
        assert(ascii_upper("_"@) =~= "_"@);
        assert(ascii_upper(j + "_"@ + ps.last()) =~= ascii_upper(j) + ascii_upper("_"@)
            + ascii_upper(ps.last()));
    }
}

proof fn lemma_upper_base_id(x: Seq<char>)
    ensures
        card_base_id(ascii_upper(x)) == ascii_upper(card_base_id(x)),
{
    lemma_upper_split(x);
    let sp = split(x, '_');
    lemma_upper_long_pieces(sp);
    let kept = long_pieces(sp);
    if kept.len() > 0 {
        lemma_upper_join(kept);
    }
}

/// Lower-casing forgets what upper-casing did.
proof fn lemma_lower_of_upper(s: Seq<char>)
    ensures
        ascii_lower(ascii_upper(s)) == ascii_lower(s),
{
    assert forall|i: int| 0 <= i < s.len() implies #[trigger] ascii_lower(ascii_upper(s))[i]
        == ascii_lower(s)[i] by {
        lemma_upper_char(s[i]);
    }
    assert(ascii_lower(ascii_upper(s)) =~= ascii_lower(s));
}

/// The pieces of an ASCII text are ASCII.
proof fn lemma_split_ascii(s: Seq<char>)
    requires
        is_ascii_str(s),
    ensures
        forall|k: int| 0 <= k < split(s, '_').len() ==> is_ascii_str(#[trigger] split(s, '_')[k]),
    decreases s.len(),
{
    match find_char(s, '_') {
        Some(i) => {
            if 0 <= i < s.len() {
                let rest = s.skip(i + 1);
                assert(is_ascii_str(s.take(i))) by {
                    assert forall|j: int| 0 <= j < s.take(i).len() implies is_ascii_char(
                        #[trigger] s.take(i)[j],
                    ) by {
                        assert(is_ascii_char(s[j]));
                    }
                }
                assert(is_ascii_str(rest)) by {
                    assert forall|j: int| 0 <= j < rest.len() implies is_ascii_char(
                        #[trigger] rest[j],
                    ) by {
                        assert(is_ascii_char(s[i + 1 + j]));
                    }
                }
                lemma_split_ascii(rest);
                let r = split(rest, '_');
                assert forall|k: int| 0 <= k < split(s, '_').len() implies is_ascii_str(
                    #[trigger] split(s, '_')[k],
                ) by {
                    if k > 0 {
                        assert(split(s, '_')[k] == r[k - 1]);
                    }
                }
            }
        },
        None => {},
    }
}

/// The long pieces are among the pieces.
proof fn lemma_long_pieces_ascii(ps: Seq<Seq<char>>)
    requires
        forall|k: int| 0 <= k < ps.len() ==> is_ascii_str(#[trigger] ps[k]),
    ensures
        forall|k: int| 0 <= k < long_pieces(ps).len() ==> is_ascii_str(#[trigger] long_pieces(ps)[k]),
    decreases ps.len(),
{
    if ps.len() > 0 {
        assert(is_ascii_str(ps.last()));
        lemma_long_pieces_ascii(ps.drop_last());
        let r = long_pieces(ps.drop_last());
        assert forall|k: int| 0 <= k < long_pieces(ps).len() implies is_ascii_str(
            #[trigger] long_pieces(ps)[k],
        ) by {
            if k < r.len() {
                assert(long_pieces(ps)[k] == r[k]);
            }
        }
    }
}

proof fn lemma_join_ascii(ps: Seq<Seq<char>>)
    requires
        forall|k: int| 0 <= k < ps.len() ==> is_ascii_str(#[trigger] ps[k]),
    ensures
        is_ascii_str(join(ps, "_"@)),
    decreases ps.len(),
{
    reveal_strlit("_");
    if ps.len() == 1 {
        assert(is_ascii_str(ps[0]));
    } else if ps.len() > 1 {
        lemma_join_ascii(ps.drop_last());
        let j = join(ps.drop_last(), "_"@);
        let l = ps.last();
        assert(is_ascii_str(l));
        let t = j + "_"@ + l;
        assert forall|i: int| 0 <= i < t.len() implies is_ascii_char(#[trigger] t[i]) by {
            if i < j.len() {
                assert(t[i] == j[i]);
            } else if i == j.len() {
                assert(t[i] == '_');
            } else {
                assert(t[i] == l[i - j.len() - 1]);
            }
        }
    }
}

/// The base id of a trimmed ASCII query is ASCII.
proof fn lemma_base_id_ascii(q: Seq<char>)
    requires
        is_ascii_str(q),
    ensures
        is_ascii_str(card_base_id(trim(q))),
{
    lemma_lead_ws_bound(q);
    let t0 = trim_start(q);
    lemma_trail_ws_bound(t0);
    let t = trim(q);
    assert forall|i: int| 0 <= i < t.len() implies is_ascii_char(#[trigger] t[i]) by {
        assert(t[i] == q[i + lead_ws(q)]);
    }
    lemma_split_ascii(t);
    lemma_long_pieces_ascii(split(t, '_'));
    if long_pieces(split(t, '_')).len() > 0 {
        lemma_join_ascii(long_pieces(split(t, '_')));
    }
}

/// A lookup ignores the case of an ASCII query: the query and its upper-case
/// spelling are both ASCII and have the same matching key, so `lookup_query`
/// answers them alike.
pub proof fn lemma_lookup_ignores_case(q: Seq<char>, kb: KnowledgeBase)
    requires
        is_ascii_str(q),
    ensures
        is_ascii_str(ascii_upper(q)),
        ascii_key(ascii_upper(q)) == ascii_key(q),
        key_result(ascii_key(ascii_upper(q)), kb) == key_result(ascii_key(q), kb),
{
    assert forall|i: int| 0 <= i < q.len() implies is_ascii_char(#[trigger] ascii_upper(q)[i]) by {
        lemma_upper_char(q[i]);
    }
    lemma_upper_trim(q);
    lemma_upper_base_id(trim(q));
    lemma_lower_of_upper(card_base_id(trim(q)));
}

} // verus!
