//! The game-data reference put in front of the model before each decision:
//! the knowledge-table rows of the cards, enemies, potions and event of the
//! current state, the matching playbook paragraphs, and a notice naming the
//! hand cards the tables do not know; all within a length budget.
use vstd::prelude::*;

use crate::lookup::{
    enemy_base_id, file_text, lookup_in_table, norm_id, normalize_id, strip_card_suffix,
    table_rows, KnowledgeBase, card_base_id, enemy_base_id_vec,
};
use crate::model::{Card, Enemy, GameState, PileCard, Potion, StateType};
use crate::text::{
    append_seq, chars_of, contains, copy_str, join, join_strings, lemma_utf8_len_at_least_len,
    lines, lowercase, opt_view, push_lit, push_str, sort_dedup, sort_dedup_strings,
    string_from_chars, take_up_to, take_up_to_vec, to_lowercase, trim, trim_vec, utf8_len,
    utf8_len_capped, vec_contains, vec_lines, views,
};

verus! {

// ---------------------------------------------------------------------------
// Output budget
// ---------------------------------------------------------------------------

/// The heading of one section: `[title]` on a line of its own.
pub open spec fn section_header(title: Seq<char>) -> Seq<char> {
    "["@ + title + "]\n"@
}

/// One titled section added to a budget `(remaining characters, text so
/// far)`.  Empty content, or an exhausted budget, adds nothing.  A section
/// that does not fit is cut to the characters left and marked with `...`,
/// which exhausts the budget; when fewer than 21 are left it is dropped.
pub open spec fn budget_append(b: (nat, Seq<char>), title: Seq<char>, content: Seq<char>) -> (
    nat,
    Seq<char>,
) {
    let header = section_header(title);
    let total = header.len() + content.len() + 2;
    if content.len() == 0 || b.0 == 0 {
        b
    } else if total >= b.0 {
        let room = b.0 - (header.len() + 2);
        if room > 20 {
            (0nat, b.1 + header + take_up_to(content, room as nat) + "...\n\n"@)
        } else {
            b
        }
    } else {
        ((b.0 - total) as nat, b.1 + header + content + "\n\n"@)
    }
}

/// A length budget for the text put in front of the model.
pub struct Budget {
    remaining: usize,
    out: String,
}

impl View for Budget {
    type V = (nat, Seq<char>);

    /// The characters left and the text so far.
    closed spec fn view(&self) -> (nat, Seq<char>) {
        (self.remaining as nat, self.out@)
    }
}

impl Budget {
    /// An empty text with `max` characters to spend.
    pub fn new(max: usize) -> (r: Budget)
        ensures
            r@ == (max as nat, Seq::<char>::empty()),
    {
        Budget { remaining: max, out: String::new() }
    }

    /// Adds a titled section, cut to what is left of the budget.
    pub fn append(&mut self, title: &str, content: &str)
        ensures
            final(self)@ == budget_append(old(self)@, title@, content@),
    {
        if content.is_empty() || self.remaining == 0 {
            return;
        }
        let mut hv: Vec<char> = Vec::new();
        push_lit(&mut hv, "[");
        push_lit(&mut hv, title);
        push_lit(&mut hv, "]\n");
        assert(hv@ =~= section_header(title@));
        let cv = chars_of(content);
        let r = self.remaining;
        let hl = hv.len();
        let cl = cv.len();
        if hl as u128 + cl as u128 + 2 >= r as u128 {
            let room: usize = if hl as u128 + 2 >= r as u128 {
                0
            } else {
                r - hl - 2
            };
            if room > 20 {
                let cut = take_up_to_vec(&cv, room);
                append_seq(&mut self.out, &hv);
                append_seq(&mut self.out, &cut);
                push_str(&mut self.out, "...\n\n");
                self.remaining = 0;
            }
            return;
        }
        append_seq(&mut self.out, &hv);
        push_str(&mut self.out, content);
        push_str(&mut self.out, "\n\n");
        self.remaining = r - hl - cl - 2;
    }

    /// Puts text in front of everything, outside the budget and uncut.
    pub fn prepend_raw(&mut self, text: &str)
        ensures
            final(self)@ == (old(self)@.0, text@ + old(self)@.1),
    {
        let mut n = copy_str(text);
        push_str(&mut n, self.out.as_str());
        self.out = n;
    }

    /// The text written.
    pub fn finish(self) -> (r: String)
        ensures
            r@ == self@.1,
    {
        self.out
    }
}

/// Appending never takes back text already written, and never gives
/// characters back to the budget.
pub proof fn lemma_budget_append_extends(b: (nat, Seq<char>), title: Seq<char>, content: Seq<char>)
    ensures
        budget_append(b, title, content).1.take(b.1.len() as int) == b.1,
        b.1.len() <= budget_append(b, title, content).1.len(),
        budget_append(b, title, content).0 <= b.0,
        b.0 == 0 ==> budget_append(b, title, content) == b,
{
    let n = budget_append(b, title, content);
    assert(n.1.take(b.1.len() as int) =~= b.1);
}

/// The sections added, one after another, to a budget of `max` characters.
pub open spec fn budget_fill(max: nat, sections: Seq<(Seq<char>, Seq<char>)>) -> (nat, Seq<char>)
    decreases sections.len(),
{
    if sections.len() == 0 {
        (max, Seq::empty())
    } else {
        let s = sections.last();
        budget_append(budget_fill(max, sections.drop_last()), s.0, s.1)
    }
}

proof fn lemma_budget_fill_bound(max: nat, sections: Seq<(Seq<char>, Seq<char>)>)
    ensures
        ({
            let b = budget_fill(max, sections);
            (b.0 > 0 && b.1.len() + b.0 <= max) || (b.0 == 0 && b.1.len() <= max + 3)
        }),
    decreases sections.len(),
{
    if sections.len() > 0 {
        let p = budget_fill(max, sections.drop_last());
        lemma_budget_fill_bound(max, sections.drop_last());
        let s = sections.last();
        let header = section_header(s.0);
        let total = header.len() + s.1.len() + 2;
        let n = budget_append(p, s.0, s.1);
        assert(budget_fill(max, sections) == n);
        if s.1.len() == 0 || p.0 == 0 {
        } else if total >= p.0 {
            let room = p.0 - (header.len() + 2);
            if room > 20 {
                let cut = take_up_to(s.1, room as nat);
                assert(cut.len() <= room);
                assert(n.1 =~= p.1 + header + cut + "...\n\n"@);
                reveal_strlit("...\n\n");
                assert(n.1.len() == p.1.len() + header.len() + cut.len() + 5);
            }
        } else {
            reveal_strlit("\n\n");
            assert(n.1.len() == p.1.len() + header.len() + s.1.len() + 2);
        }
    }
}

/// Whatever sections are added to a budget of `max` characters, the text holds at
/// most `max` characters, and three more for the `...` that marks a cut.
pub proof fn lemma_budget_bound(max: nat, sections: Seq<(Seq<char>, Seq<char>)>)
    ensures
        budget_fill(max, sections).1.len() <= max + 3,
{
    lemma_budget_fill_bound(max, sections);
}

// ---------------------------------------------------------------------------
// Ids of the current state
// ---------------------------------------------------------------------------

/// What one hand card is looked up by: its id without the character suffix,
/// and its name (each when not empty).
pub open spec fn card_entry_ids(c: Card) -> Seq<Seq<char>> {
    let a: Seq<Seq<char>> = if c.id@.len() > 0 {
        seq![card_base_id(c.id@)]
    } else {
        Seq::empty()
    };
    let b: Seq<Seq<char>> = if c.name@.len() > 0 {
        seq![c.name@]
    } else {
        Seq::empty()
    };
    a + b
}

pub open spec fn hand_card_ids(hand: Seq<Card>) -> Seq<Seq<char>>
    decreases hand.len(),
{
    if hand.len() == 0 {
        Seq::empty()
    } else {
        hand_card_ids(hand.drop_last()) + card_entry_ids(hand.last())
    }
}

/// The names of the cards of a pile that have one.
pub open spec fn pile_card_names(pile: Seq<PileCard>) -> Seq<Seq<char>>
    decreases pile.len(),
{
    if pile.len() == 0 {
        Seq::empty()
    } else {
        let r = pile_card_names(pile.drop_last());
        if pile.last().name@.len() > 0 {
            r.push(pile.last().name@)
        } else {
            r
        }
    }
}

/// The card ids of a state: hand cards, then the draw and discard piles.
pub open spec fn card_ids_in(gs: GameState) -> Seq<Seq<char>> {
    match gs.player {
        None => Seq::empty(),
        Some(p) => {
            let h = match p.hand {
                Some(v) => hand_card_ids(v@),
                None => Seq::empty(),
            };
            let d = match p.draw_pile {
                Some(v) => pile_card_names(v@),
                None => Seq::empty(),
            };
            let x = match p.discard_pile {
                Some(v) => pile_card_names(v@),
                None => Seq::empty(),
            };
            h + d + x
        },
    }
}

/// `y` is the name of a card of the pile that has a name.
pub open spec fn named_in_pile(pile: Seq<PileCard>, y: Seq<char>) -> bool {
    exists|i: int| 0 <= i < pile.len() && (#[trigger] pile[i]).name@.len() > 0 && pile[i].name@ == y
}

/// `y` is the base id or the name of a hand card that has one.
pub open spec fn named_in_hand(hand: Seq<Card>, y: Seq<char>) -> bool {
    exists|i: int|
        0 <= i < hand.len() && (((#[trigger] hand[i]).id@.len() > 0 && card_base_id(hand[i].id@)
            == y) || (hand[i].name@.len() > 0 && hand[i].name@ == y))
}

proof fn lemma_pile_names_contain(pile: Seq<PileCard>, y: Seq<char>)
    ensures
        pile_card_names(pile).contains(y) <==> named_in_pile(pile, y),
    decreases pile.len(),
{
    if pile.len() > 0 {
        let p = pile.drop_last();
        lemma_pile_names_contain(p, y);
        if named_in_pile(p, y) {
            let i = choose|i: int| 0 <= i < p.len() && (#[trigger] p[i]).name@.len() > 0 && p[i].name@ == y;
            assert(pile[i] == p[i]);
        }
        if named_in_pile(pile, y) {
            let i = choose|i: int| 0 <= i < pile.len() && (#[trigger] pile[i]).name@.len() > 0
                && pile[i].name@ == y;
            if i < p.len() {
                assert(pile[i] == p[i]);
            }
        }
        let r = pile_card_names(p);
        if pile.last().name@.len() > 0 {
            assert(r.push(pile.last().name@).contains(y) <==> (r.contains(y) || pile.last().name@ == y)) by {
                if r.push(pile.last().name@).contains(y) {
                    let k = choose|k: int| 0 <= k < r.len() + 1 && r.push(pile.last().name@)[k] == y;
                    if k < r.len() {
                        assert(r[k] == y);
                    }
                }
                if r.contains(y) {
                    let k = choose|k: int| 0 <= k < r.len() && r[k] == y;
                    assert(r.push(pile.last().name@)[k] == y);
                }
                assert(r.push(pile.last().name@)[r.len() as int] == pile.last().name@);
            }
        }
    }
}

proof fn lemma_hand_ids_contain(hand: Seq<Card>, y: Seq<char>)
    ensures
        hand_card_ids(hand).contains(y) <==> named_in_hand(hand, y),
    decreases hand.len(),
{
    if hand.len() > 0 {
        let p = hand.drop_last();
        lemma_hand_ids_contain(p, y);
        let c = hand.last();
        let r = hand_card_ids(p);
        let e = card_entry_ids(c);
        let in_c = (c.id@.len() > 0 && card_base_id(c.id@) == y) || (c.name@.len() > 0 && c.name@ == y);
        assert(e.contains(y) <==> in_c) by {
            if e.contains(y) {
                let k = choose|k: int| 0 <= k < e.len() && e[k] == y;
            }
            if c.id@.len() > 0 && card_base_id(c.id@) == y {
                assert(e[0] == y);
            }
            if c.name@.len() > 0 && c.name@ == y {
                assert(e[e.len() - 1] == y);
            }
        }
        assert((r + e).contains(y) <==> (r.contains(y) || e.contains(y))) by {
            if (r + e).contains(y) {
                let k = choose|k: int| 0 <= k < (r + e).len() && (r + e)[k] == y;
                if k < r.len() {
                    assert(r[k] == y);
                } else {
                    assert(e[k - r.len()] == y);
                }
            }
            if r.contains(y) {
                let k = choose|k: int| 0 <= k < r.len() && r[k] == y;
                assert((r + e)[k] == y);
            }
            if e.contains(y) {
                let k = choose|k: int| 0 <= k < e.len() && e[k] == y;
                assert((r + e)[r.len() + k] == y);
            }
        }
        if named_in_hand(p, y) {
            let i = choose|i: int|
                0 <= i < p.len() && (((#[trigger] p[i]).id@.len() > 0 && card_base_id(p[i].id@) == y)
                    || (p[i].name@.len() > 0 && p[i].name@ == y));
            assert(hand[i] == p[i]);
        }
        if named_in_hand(hand, y) {
            let i = choose|i: int|
                0 <= i < hand.len() && (((#[trigger] hand[i]).id@.len() > 0 && card_base_id(
                    hand[i].id@,
                ) == y) || (hand[i].name@.len() > 0 && hand[i].name@ == y));
            if i < p.len() {
                assert(hand[i] == p[i]);
            }
        }
        if in_c {
            assert(hand[hand.len() - 1] == c);
        }
    }
}

/// The card ids collected from a state are sorted without repeats, and they
/// are exactly the base ids and names of the hand cards and the names of
/// the named cards of the draw pile and of the discard pile; a state
/// without a player has none.
pub proof fn lemma_collected_card_ids(gs: GameState, y: Seq<char>)
    ensures
        crate::text::strictly_sorted(sort_dedup(card_ids_in(gs))),
        gs.player is None ==> sort_dedup(card_ids_in(gs)).len() == 0,
        ({
            let p = gs.player->0;
            gs.player is Some ==> (sort_dedup(card_ids_in(gs)).contains(y) <==> (
            (p.hand is Some && named_in_hand(p.hand->0@, y))
                || (p.draw_pile is Some && named_in_pile(p.draw_pile->0@, y))
                || (p.discard_pile is Some && named_in_pile(p.discard_pile->0@, y))))
        }),
{
    let s = card_ids_in(gs);
    crate::text::lemma_sort_dedup(s);
    if gs.player is None {
        assert(s =~= Seq::<Seq<char>>::empty());
        if sort_dedup(s).len() > 0 {
            assert(sort_dedup(s).contains(sort_dedup(s)[0]));
        }
    } else {
        let p = gs.player->0;
        let h: Seq<Seq<char>> = match p.hand {
            Some(v) => hand_card_ids(v@),
            None => Seq::empty(),
        };
        let d: Seq<Seq<char>> = match p.draw_pile {
            Some(v) => pile_card_names(v@),
            None => Seq::empty(),
        };
        let x: Seq<Seq<char>> = match p.discard_pile {
            Some(v) => pile_card_names(v@),
            None => Seq::empty(),
        };
        assert(s == h + d + x);
        match p.hand {
            Some(v) => lemma_hand_ids_contain(v@, y),
            None => {},
        }
        match p.draw_pile {
            Some(v) => lemma_pile_names_contain(v@, y),
            None => {},
        }
        match p.discard_pile {
            Some(v) => lemma_pile_names_contain(v@, y),
            None => {},
        }
        assert(s.contains(y) <==> (h.contains(y) || d.contains(y) || x.contains(y))) by {
            if s.contains(y) {
                let k = choose|k: int| 0 <= k < s.len() && s[k] == y;
                if k < h.len() {
                    assert(h[k] == y);
                } else if k < h.len() + d.len() {
                    assert(d[k - h.len()] == y);
                } else {
                    assert(x[k - h.len() - d.len()] == y);
                }
            }
            if h.contains(y) {
                let k = choose|k: int| 0 <= k < h.len() && h[k] == y;
                assert(s[k] == y);
            }
            if d.contains(y) {
                let k = choose|k: int| 0 <= k < d.len() && d[k] == y;
                assert(s[h.len() + k] == y);
            }
            if x.contains(y) {
                let k = choose|k: int| 0 <= k < x.len() && x[k] == y;
                assert(s[h.len() + d.len() + k] == y);
            }
        }
    }
}

/// What one enemy is looked up by: its entity id without the instance
/// suffix, and its name, both normalized.
pub open spec fn enemy_entry_ids(e: Enemy) -> Seq<Seq<char>> {
    let base = enemy_base_id(e.entity_id@);
    let a: Seq<Seq<char>> = if e.entity_id@.len() > 0 && base.len() > 0 {
        seq![norm_id(base)]
    } else {
        Seq::empty()
    };
    let b: Seq<Seq<char>> = if e.name@.len() > 0 {
        seq![norm_id(e.name@)]
    } else {
        Seq::empty()
    };
    a + b
}

pub open spec fn enemy_ids_of(es: Seq<Enemy>) -> Seq<Seq<char>>
    decreases es.len(),
{
    if es.len() == 0 {
        Seq::empty()
    } else {
        enemy_ids_of(es.drop_last()) + enemy_entry_ids(es.last())
    }
}

pub open spec fn enemy_ids_in(gs: GameState) -> Seq<Seq<char>> {
    match gs.battle {
        Some(b) => enemy_ids_of(b.enemies@),
        None => Seq::empty(),
    }
}

/// What one potion is looked up by: its id, and its normalized name.
pub open spec fn potion_entry_ids(p: Potion) -> Seq<Seq<char>> {
    let a: Seq<Seq<char>> = if p.id@.len() > 0 {
        seq![p.id@]
    } else {
        Seq::empty()
    };
    let b: Seq<Seq<char>> = if p.name@.len() > 0 {
        seq![norm_id(p.name@)]
    } else {
        Seq::empty()
    };
    a + b
}

pub open spec fn potion_ids_of(ps: Seq<Potion>) -> Seq<Seq<char>>
    decreases ps.len(),
{
    if ps.len() == 0 {
        Seq::empty()
    } else {
        potion_ids_of(ps.drop_last()) + potion_entry_ids(ps.last())
    }
}

pub open spec fn potion_ids_in(gs: GameState) -> Seq<Seq<char>> {
    match gs.player {
        Some(p) => potion_ids_of(p.potions@),
        None => Seq::empty(),
    }
}

/// The id of the current event, when there is a non-empty one.
pub open spec fn event_id_of(gs: GameState) -> Option<Seq<char>> {
    match gs.event {
        Some(ev) => match ev.event_id {
            Some(id) => if id@.len() > 0 {
                Some(id@)
            } else {
                None
            },
            None => None,
        },
        None => None,
    }
}

fn push_view(ids: &mut Vec<String>, s: String)
    ensures
        views(final(ids)@) == views(old(ids)@).push(s@),
{
    let ghost before = ids@;
    ids.push(s);
    assert(views(ids@) =~= views(before).push(ids@[ids@.len() - 1]@));
}

fn push_hand_ids(ids: &mut Vec<String>, hand: &Vec<Card>)
    ensures
        views(final(ids)@) == views(old(ids)@) + hand_card_ids(hand@),
{
    let ghost base = views(ids@);
    let mut i: usize = 0;
    while i < hand.len()
        invariant
            i <= hand@.len(),
            views(ids@) == base + hand_card_ids(hand@.take(i as int)),
        decreases hand@.len() - i,
    {
        let ghost before = views(ids@);
        let card = &hand[i];
        if !card.id.as_str().is_empty() {
            push_view(ids, strip_card_suffix(card.id.as_str()));
        }
        if !card.name.as_str().is_empty() {
            push_view(ids, copy_str(card.name.as_str()));
        }
        proof {
            assert(views(ids@) =~= before + card_entry_ids(*card));
            let t = hand@.take(i + 1);
            assert(t.drop_last() =~= hand@.take(i as int));
            assert(t.last() == *card);
            assert(base + hand_card_ids(t) =~= before + card_entry_ids(*card));
        }
        i = i + 1;
    }
    assert(hand@.take(hand@.len() as int) =~= hand@);
}

fn push_pile_names(ids: &mut Vec<String>, pile: &Vec<PileCard>)
    ensures
        views(final(ids)@) == views(old(ids)@) + pile_card_names(pile@),
{
    let ghost base = views(ids@);
    let mut i: usize = 0;
    while i < pile.len()
        invariant
            i <= pile@.len(),
            views(ids@) == base + pile_card_names(pile@.take(i as int)),
        decreases pile@.len() - i,
    {
        let ghost before = views(ids@);
        let card = &pile[i];
        proof {
            let t = pile@.take(i + 1);
            assert(t.drop_last() =~= pile@.take(i as int));
            assert(t.last() == *card);
        }
        if !card.name.as_str().is_empty() {
            push_view(ids, copy_str(card.name.as_str()));
            assert(views(ids@) =~= base + pile_card_names(pile@.take(i + 1)));
        }
        i = i + 1;
    }
    assert(pile@.take(pile@.len() as int) =~= pile@);
}

/// The distinct ids, sorted.
pub fn dedup_ids(ids: Vec<String>) -> (r: Vec<String>)
    ensures
        views(r@) == sort_dedup(views(ids@)),
{
    sort_dedup_strings(&ids)
}

/// The distinct card ids and names of the hand and the two piles.
pub fn collect_card_ids(gs: &GameState) -> (r: Vec<String>)
    ensures
        views(r@) == sort_dedup(card_ids_in(*gs)),
{
    let mut ids: Vec<String> = Vec::new();
    assert(views(ids@) =~= Seq::<Seq<char>>::empty());
    match &gs.player {
        Some(p) => {
            match &p.hand {
                Some(h) => push_hand_ids(&mut ids, h),
                None => {},
            }
            let ghost h = views(ids@);
            match &p.draw_pile {
                Some(d) => push_pile_names(&mut ids, d),
                None => {
                    assert(views(ids@) =~= h + Seq::<Seq<char>>::empty());
                },
            }
            let ghost hd = views(ids@);
            match &p.discard_pile {
                Some(d) => push_pile_names(&mut ids, d),
                None => {
                    assert(views(ids@) =~= hd + Seq::<Seq<char>>::empty());
                },
            }
            proof {
                if p.hand is None {
                    assert(h =~= Seq::<Seq<char>>::empty() + Seq::<Seq<char>>::empty());
                }
            }
        },
        None => {},
    }
    dedup_ids(ids)
}

fn push_enemy_ids(ids: &mut Vec<String>, es: &Vec<Enemy>)
    ensures
        views(final(ids)@) == views(old(ids)@) + enemy_ids_of(es@),
{
    let ghost base = views(ids@);
    let mut i: usize = 0;
    while i < es.len()
        invariant
            i <= es@.len(),
            views(ids@) == base + enemy_ids_of(es@.take(i as int)),
        decreases es@.len() - i,
    {
        let ghost before = views(ids@);
        let e = &es[i];
        if !e.entity_id.as_str().is_empty() {
            let ev = chars_of(e.entity_id.as_str());
            let bv = enemy_base_id_vec(&ev);
            if bv.len() > 0 {
                let bs = string_from_chars(bv.as_slice());
                push_view(ids, normalize_id(bs.as_str()));
            }
        }
        if !e.name.as_str().is_empty() {
            push_view(ids, normalize_id(e.name.as_str()));
        }
        proof {
            assert(views(ids@) =~= before + enemy_entry_ids(*e));
            let t = es@.take(i + 1);
            assert(t.drop_last() =~= es@.take(i as int));
            assert(t.last() == *e);
            assert(base + enemy_ids_of(t) =~= before + enemy_entry_ids(*e));
        }
        i = i + 1;
    }
    assert(es@.take(es@.len() as int) =~= es@);
}

/// The distinct normalized enemy ids and names of the battle.
pub fn collect_enemy_ids(gs: &GameState) -> (r: Vec<String>)
    ensures
        views(r@) == sort_dedup(enemy_ids_in(*gs)),
{
    let mut ids: Vec<String> = Vec::new();
    assert(views(ids@) =~= Seq::<Seq<char>>::empty());
    match &gs.battle {
        Some(b) => {
            push_enemy_ids(&mut ids, &b.enemies);
            assert(views(ids@) =~= enemy_ids_of(b.enemies@));
        },
        None => {},
    }
    dedup_ids(ids)
}

fn push_potion_ids(ids: &mut Vec<String>, ps: &Vec<Potion>)
    ensures
        views(final(ids)@) == views(old(ids)@) + potion_ids_of(ps@),
{
    let ghost base = views(ids@);
    let mut i: usize = 0;
    while i < ps.len()
        invariant
            i <= ps@.len(),
            views(ids@) == base + potion_ids_of(ps@.take(i as int)),
        decreases ps@.len() - i,
    {
        let ghost before = views(ids@);
        let p = &ps[i];
        if !p.id.as_str().is_empty() {
            push_view(ids, copy_str(p.id.as_str()));
        }
        if !p.name.as_str().is_empty() {
            push_view(ids, normalize_id(p.name.as_str()));
        }
        proof {
            assert(views(ids@) =~= before + potion_entry_ids(*p));
            let t = ps@.take(i + 1);
            assert(t.drop_last() =~= ps@.take(i as int));
            assert(t.last() == *p);
            assert(base + potion_ids_of(t) =~= before + potion_entry_ids(*p));
        }
        i = i + 1;
    }
    assert(ps@.take(ps@.len() as int) =~= ps@);
}

/// The distinct potion ids and normalized names of the player.
pub fn collect_potion_ids(gs: &GameState) -> (r: Vec<String>)
    ensures
        views(r@) == sort_dedup(potion_ids_in(*gs)),
{
    let mut ids: Vec<String> = Vec::new();
    assert(views(ids@) =~= Seq::<Seq<char>>::empty());
    match &gs.player {
        Some(p) => {
            push_potion_ids(&mut ids, &p.potions);
            assert(views(ids@) =~= potion_ids_of(p.potions@));
        },
        None => {},
    }
    dedup_ids(ids)
}

/// The id of the current event, when there is a non-empty one.
pub fn extract_event_id(gs: &GameState) -> (r: Option<String>)
    ensures
        opt_view(r) == event_id_of(*gs),
{
    match &gs.event {
        Some(ev) => match &ev.event_id {
            Some(id) => if id.as_str().is_empty() {
                None
            } else {
                Some(copy_str(id.as_str()))
            },
            None => None,
        },
        None => None,
    }
}


// ---------------------------------------------------------------------------
// Hand cards the tables do not know
// ---------------------------------------------------------------------------

/// A hand card that neither its base id nor its name finds in `cards.md`.
pub open spec fn card_unknown(c: Card, md: Seq<char>) -> bool {
    let q = card_base_id(c.id@);
    &&& q.len() > 0
    &&& table_rows(seq![q], Some(md)).len() == 0
    &&& table_rows(seq![c.name@], Some(md)).len() == 0
}

/// `name [id=ID]` for each unknown hand card, in hand order.
pub open spec fn unknown_card_labels(hand: Seq<Card>, md: Seq<char>) -> Seq<Seq<char>>
    decreases hand.len(),
{
    if hand.len() == 0 {
        Seq::empty()
    } else {
        let r = unknown_card_labels(hand.drop_last(), md);
        let c = hand.last();
        if card_unknown(c, md) {
            r.push(c.name@ + " [id="@ + c.id@ + "]"@)
        } else {
            r
        }
    }
}

pub open spec fn unknown_notice_head() -> Seq<char> {
    "\n[!] 以下手牌知识库未收录: "@
}

pub open spec fn unknown_notice_tail() -> Seq<char> {
    "\n注意：若下方「知识库查询记录」中已有这些牌的信息，以查询记录为准，不要再查询或声称查不到。对仍无信息的牌，明说\"不确定\"，禁止凭猜测出牌或评价。\n"@
}

/// The notice naming the unknown hand cards; empty when there are none or
/// when there is no `cards.md`.
pub open spec fn unknown_cards_notice(gs: GameState, kb: KnowledgeBase) -> Seq<char> {
    match file_text(kb.files@, "cards.md"@) {
        None => Seq::empty(),
        Some(md) => {
            let labels = match gs.player {
                Some(p) => match p.hand {
                    Some(h) => unknown_card_labels(h@, md),
                    None => Seq::empty(),
                },
                None => Seq::empty(),
            };
            if labels.len() == 0 {
                Seq::empty()
            } else {
                unknown_notice_head() + join(labels, "、"@) + unknown_notice_tail()
            }
        },
    }
}

fn one_row_lookup(id: &String, md: &String) -> (r: bool)
    ensures
        r == (table_rows(seq![id@], Some(md@)).len() == 0),
{
    let ids = vec![copy_str(id.as_str())];
    let t = lookup_in_table(&ids, Some(md));
    assert(ids@.map_values(|s: String| s@) =~= seq![id@]);
    t.as_str().is_empty()
}

/// Names the hand cards that `cards.md` does not know, as an instruction to
/// the model not to guess about them.
pub fn find_unknown_hand_cards(gs: &GameState, kb: &KnowledgeBase) -> (r: String)
    ensures
        r@ == unknown_cards_notice(*gs, *kb),
{
    let md = match kb.file("cards.md") {
        Some(md) => md,
        None => return String::new(),
    };
    let mut labels: Vec<String> = Vec::new();
    let ghost mut hand_seq: Seq<Card> = Seq::empty();
    match &gs.player {
        Some(p) => match &p.hand {
            Some(hand) => {
                proof {
                    hand_seq = hand@;
                }
                let mut i: usize = 0;
                while i < hand.len()
                    invariant
                        hand_seq == hand@,
                        i <= hand@.len(),
                        views(labels@) == unknown_card_labels(hand@.take(i as int), md@),
                    decreases hand@.len() - i,
                {
                    let card = &hand[i];
                    proof {
                        let t = hand@.take(i + 1);
                        assert(t.drop_last() =~= hand@.take(i as int));
                        assert(t.last() == *card);
                    }
                    let q = strip_card_suffix(card.id.as_str());
                    if !q.as_str().is_empty() && one_row_lookup(&q, md) && one_row_lookup(
                        &card.name,
                        md,
                    ) {
                        let mut label = copy_str(card.name.as_str());
                        push_str(&mut label, " [id=");
                        push_str(&mut label, card.id.as_str());
                        push_str(&mut label, "]");
                        push_view(&mut labels, label);
                    }
                    i = i + 1;
                }
                assert(hand@.take(hand@.len() as int) =~= hand@);
            },
            None => {},
        },
        None => {},
    }
    assert(views(labels@) =~= unknown_card_labels(hand_seq, md@));
    if labels.len() == 0 {
        return String::new();
    }
    let mut out = copy_str("\n[!] 以下手牌知识库未收录: ");
    let joined = join_strings(&labels, "、");
    push_str(&mut out, joined.as_str());
    push_str(
        &mut out,
        "\n注意：若下方「知识库查询记录」中已有这些牌的信息，以查询记录为准，不要再查询或声称查不到。对仍无信息的牌，明说\"不确定\"，禁止凭猜测出牌或评价。\n",
    );
    out
}

// ---------------------------------------------------------------------------
// Playbook paragraphs
// ---------------------------------------------------------------------------

/// The words whose paragraphs of the playbook matter on each screen.
pub open spec fn playbook_keywords(t: StateType) -> Seq<Seq<char>> {
    match t {
        StateType::Monster | StateType::Elite | StateType::Boss => seq!["Combat"@, "Monster"@],
        StateType::MapScreen => seq!["Core"@, "Route"@],
        StateType::Event => seq!["Event"@],
        StateType::Rewards | StateType::CardReward => seq!["Reward"@],
        StateType::Shop | StateType::FakeMerchant => seq!["Shop"@],
        StateType::RestSite => seq!["Rest"@],
        _ => Seq::empty(),
    }
}

/// A paragraph mentions one of the words, ignoring case.
pub open spec fn mentions_any(par: Seq<char>, kws: Seq<Seq<char>>) -> bool {
    exists|i: int| 0 <= i < kws.len() && contains(lowercase(par), lowercase(#[trigger] kws[i]))
}

/// Reads lines into paragraphs separated by blank lines: the paragraphs kept
/// so far (those that mention a word) and the one being read.
pub open spec fn playbook_scan(ls: Seq<Seq<char>>, kws: Seq<Seq<char>>) -> (
    Seq<Seq<char>>,
    Seq<char>,
)
    decreases ls.len(),
{
    if ls.len() == 0 {
        (Seq::empty(), Seq::empty())
    } else {
        let (kept, cur) = playbook_scan(ls.drop_last(), kws);
        let l = ls.last();
        if trim(l).len() == 0 {
            if cur.len() == 0 {
                (kept, cur)
            } else if mentions_any(cur, kws) {
                (kept.push(cur), Seq::empty())
            } else {
                (kept, Seq::empty())
            }
        } else if cur.len() == 0 {
            (kept, l)
        } else {
            (kept, cur + "\n"@ + l)
        }
    }
}

/// The playbook paragraphs that matter on screen `t`, separated by a blank
/// line; empty without a playbook or on a screen with no words.
pub open spec fn playbook_text(t: StateType, content: Option<Seq<char>>) -> Seq<char> {
    match content {
        None => Seq::empty(),
        Some(c) => {
            let kws = playbook_keywords(t);
            if kws.len() == 0 {
                Seq::empty()
            } else {
                let (kept, cur) = playbook_scan(lines(c), kws);
                let all = if cur.len() > 0 && mentions_any(cur, kws) {
                    kept.push(cur)
                } else {
                    kept
                };
                join(all, "\n\n"@)
            }
        },
    }
}

fn playbook_keywords_of(t: StateType) -> (r: Vec<String>)
    ensures
        views(r@) == playbook_keywords(t),
{
    let r = match t {
        StateType::Monster | StateType::Elite | StateType::Boss => vec![
            copy_str("Combat"),
            copy_str("Monster"),
        ],
        StateType::MapScreen => vec![copy_str("Core"), copy_str("Route")],
        StateType::Event => vec![copy_str("Event")],
        StateType::Rewards | StateType::CardReward => vec![copy_str("Reward")],
        StateType::Shop | StateType::FakeMerchant => vec![copy_str("Shop")],
        StateType::RestSite => vec![copy_str("Rest")],
        _ => Vec::new(),
    };
    assert(views(r@) =~= playbook_keywords(t));
    r
}

fn mentions_any_vec(par: &Vec<char>, kws: &Vec<String>) -> (r: bool)
    ensures
        r == mentions_any(par@, views(kws@)),
{
    let ps = string_from_chars(par.as_slice());
    let low = to_lowercase(ps.as_str());
    let lv = chars_of(low.as_str());
    let ghost k = views(kws@);
    let mut i: usize = 0;
    while i < kws.len()
        invariant
            k == views(kws@),
            i <= kws@.len(),
            lv@ == lowercase(par@),
            forall|j: int| 0 <= j < i ==> !contains(lowercase(par@), lowercase(#[trigger] k[j])),
        decreases kws@.len() - i,
    {
        let kl = to_lowercase(kws[i].as_str());
        let kv = chars_of(kl.as_str());
        assert(k[i as int] == kws@[i as int]@);
        if vec_contains(&lv, &kv) {
            return true;
        }
        i = i + 1;
    }
    false
}

/// The paragraphs of the playbook that matter on the current screen.
pub fn lookup_playbook(gs: &GameState, content: Option<&String>) -> (r: String)
    ensures
        r@ == playbook_text(gs.state_type, crate::lookup::opt_string_view(content)),
{
    let c = match content {
        Some(c) => c,
        None => return String::new(),
    };
    let kws = playbook_keywords_of(gs.state_type);
    if kws.len() == 0 {
        return String::new();
    }
    let ghost k = views(kws@);
    let cv = chars_of(c.as_str());
    let ls = vec_lines(&cv);
    let ghost big_l = lines(c@);
    let mut kept: Vec<Vec<char>> = Vec::new();
    let mut cur: Vec<char> = Vec::new();
    let mut i: usize = 0;
    while i < ls.len()
        invariant
            k == views(kws@),
            big_l == lines(c@),
            ls@.len() == big_l.len(),
            forall|j: int| 0 <= j < ls@.len() ==> #[trigger] ls@[j]@ == big_l[j],
            i <= ls@.len(),
            (kept@.map_values(|p: Vec<char>| p@), cur@) == playbook_scan(big_l.take(i as int), k),
        decreases ls@.len() - i,
    {
        proof {
            let t = big_l.take(i + 1);
            assert(t.drop_last() =~= big_l.take(i as int));
            assert(t.last() == ls@[i as int]@);
        }
        let ghost kept_before = kept@;
        let ghost cur_before = cur@;
        let line = &ls[i];
        let t = trim_vec(line);
        if t.len() == 0 {
            if cur.len() > 0 {
                if mentions_any_vec(&cur, &kws) {
                    kept.push(cur);
                    assert(kept@.map_values(|p: Vec<char>| p@) =~= kept_before.map_values(
                        |p: Vec<char>| p@,
                    ).push(cur_before));
                }
                cur = Vec::new();
            }
        } else {
            if cur.len() == 0 {
                cur = crate::text::slice_vec(line, 0, line.len());
                assert(cur@ =~= line@);
            } else {
                cur.push('\n');
                crate::text::push_vec(&mut cur, line);
                assert(cur@ =~= cur_before + "\n"@ + line@) by {
                    reveal_strlit("\n");
                }
            }
        }
        i = i + 1;
    }
    assert(big_l.take(ls@.len() as int) =~= big_l);
    if cur.len() > 0 && mentions_any_vec(&cur, &kws) {
        let ghost kept_before = kept@;
        let ghost cur_before = cur@;
        kept.push(cur);
        assert(kept@.map_values(|p: Vec<char>| p@) =~= kept_before.map_values(|p: Vec<char>| p@).push(
            cur_before,
        ));
    }
    let sep = chars_of("\n\n");
    let j = crate::text::join_vecs(&kept, &sep);
    string_from_chars(j.as_slice())
}


// ---------------------------------------------------------------------------
// The reference text
// ---------------------------------------------------------------------------

/// The rows of the knowledge file `name` that match one of `ids`.
pub open spec fn kb_rows(kb: KnowledgeBase, ids: Seq<Seq<char>>, name: Seq<char>) -> Seq<char> {
    table_rows(ids, file_text(kb.files@, name))
}

/// Two titled sections of rows for a list of ids, when the list is not empty.
pub open spec fn append_tables(
    b: (nat, Seq<char>),
    kb: KnowledgeBase,
    ids: Seq<Seq<char>>,
    title1: Seq<char>,
    file1: Seq<char>,
    title2: Seq<char>,
    file2: Seq<char>,
) -> (nat, Seq<char>) {
    if ids.len() > 0 {
        budget_append(
            budget_append(b, title1, kb_rows(kb, ids, file1)),
            title2,
            kb_rows(kb, ids, file2),
        )
    } else {
        b
    }
}

/// A text cut to `max` characters, marked with `...` when cut.
pub open spec fn capped(s: Seq<char>, max: nat) -> Seq<char> {
    if s.len() > max {
        s.take(max as int) + "...\n\n"@
    } else {
        s
    }
}

/// The game-data reference for a state: card rows, the unknown-card notice
/// in front (which spends none of the sections' budget of 2000 characters),
/// enemy rows, potion rows, the event row and the playbook paragraphs; the
/// whole is cut to 2000 characters.  Empty without a knowledge directory.
pub open spec fn knowledge_context(gs: GameState, kb: KnowledgeBase) -> Seq<char> {
    if !kb.dir_exists {
        Seq::empty()
    } else {
        let b0: (nat, Seq<char>) = (2000nat, Seq::empty());
        let b1 = append_tables(
            b0,
            kb,
            sort_dedup(card_ids_in(gs)),
            "卡牌索引"@,
            "cards.md"@,
            "卡牌行为"@,
            "card-behaviors.md"@,
        );
        let unknown = unknown_cards_notice(gs, kb);
        let b2 = if unknown.len() > 0 {
            (b1.0, unknown + b1.1)
        } else {
            b1
        };
        let b3 = append_tables(
            b2,
            kb,
            sort_dedup(enemy_ids_in(gs)),
            "敌人索引"@,
            "monsters.md"@,
            "敌人行为"@,
            "monster-behaviors.md"@,
        );
        let b4 = append_tables(
            b3,
            kb,
            sort_dedup(potion_ids_in(gs)),
            "药水索引"@,
            "potions.md"@,
            "药水行为"@,
            "potion-behaviors.md"@,
        );
        let b5 = match event_id_of(gs) {
            Some(id) => budget_append(b4, "事件索引"@, kb_rows(kb, seq![id], "events.md"@)),
            None => b4,
        };
        let pb = playbook_text(gs.state_type, file_text(kb.files@, "playbook.md"@));
        let b6 = if pb.len() > 0 {
            budget_append(b5, "决策指引"@, pb)
        } else {
            b5
        };
        capped(b6.1, 2000)
    }
}

fn rows_in(ids: &Vec<String>, kb: &KnowledgeBase, name: &str) -> (r: String)
    ensures
        r@ == kb_rows(*kb, views(ids@), name@),
{
    let c = kb.file(name);
    assert(crate::lookup::opt_string_view(c) == file_text(kb.files@, name@));
    let r = lookup_in_table(ids, c);
    assert(views(ids@) =~= ids@.map_values(|s: String| s@));
    r
}

fn add_tables(
    budget: &mut Budget,
    kb: &KnowledgeBase,
    ids: &Vec<String>,
    title1: &str,
    file1: &str,
    title2: &str,
    file2: &str,
)
    ensures
        final(budget)@ == append_tables(
            old(budget)@,
            *kb,
            views(ids@),
            title1@,
            file1@,
            title2@,
            file2@,
        ),
{
    if ids.len() > 0 {
        let a = rows_in(ids, kb, file1);
        budget.append(title1, a.as_str());
        let b = rows_in(ids, kb, file2);
        budget.append(title2, b.as_str());
    }
}

/// Looks the cards, enemies, potions and event of the state up in the
/// knowledge tables and adds the playbook paragraphs for the screen: the
/// game-data reference given to the model, cut to 2000 characters.
pub fn search_game_knowledge(gs: &GameState, kb: &KnowledgeBase) -> (r: String)
    ensures
        r@ == knowledge_context(*gs, *kb),
        r@.len() <= 2005,
{
    if !kb.dir_exists {
        return String::new();
    }
    let mut budget = Budget::new(2000);
    let card_ids = collect_card_ids(gs);
    add_tables(&mut budget, kb, &card_ids, "卡牌索引", "cards.md", "卡牌行为", "card-behaviors.md");
    let unknown = find_unknown_hand_cards(gs, kb);
    if !unknown.as_str().is_empty() {
        budget.prepend_raw(unknown.as_str());
    }
    let enemy_ids = collect_enemy_ids(gs);
    add_tables(
        &mut budget,
        kb,
        &enemy_ids,
        "敌人索引",
        "monsters.md",
        "敌人行为",
        "monster-behaviors.md",
    );
    let potion_ids = collect_potion_ids(gs);
    add_tables(
        &mut budget,
        kb,
        &potion_ids,
        "药水索引",
        "potions.md",
        "药水行为",
        "potion-behaviors.md",
    );
    match extract_event_id(gs) {
        Some(event_id) => {
            let ids = vec![event_id];
            assert(views(ids@) =~= seq![ids@[0]@]);
            let rows = rows_in(&ids, kb, "events.md");
            budget.append("事件索引", rows.as_str());
        },
        None => {},
    }
    let pb_file = kb.file("playbook.md");
    let pb = lookup_playbook(gs, pb_file);
    if !pb.as_str().is_empty() {
        budget.append("决策指引", pb.as_str());
    }
    let out = chars_of(budget.finish().as_str());
    if out.len() > 2000 {
        let mut cut = take_up_to_vec(&out, 2000);
        push_lit(&mut cut, "...\n\n");
        proof {
            reveal_strlit("...\n\n");
        }
        string_from_chars(cut.as_slice())
    } else {
        string_from_chars(out.as_slice())
    }
}

} // verus!
