//! A scripted stand-in for the game server, with the same tool contract as
//! the real one: Map → `map_choose_node(0)` → Combat (Jaw Worm, 12 HP) →
//! two Strikes kill it → Rewards → `proceed_to_map` → Map.  It does not
//! simulate the game; it moves through these states and answers with
//! plausible JSON, for demonstrations and tests.
use vstd::prelude::*;

use crate::json::{
    add_member, array_of, as_str, as_u64, field, field_ref, get, item_views, json_parse,
    json_render, json_render_pretty, mkeys, mvals, new_items, new_members, object_of, opt_as_str,
    opt_as_u64, parse_json, push_item, render_json_pretty, str_eq, Json, JsonValue,
};
use crate::mcp::{jstring, mk_obj1, mk_obj2, mk_obj3, obj1, obj2, obj3};
use crate::text::{copy_str, dec_int, i64_to_string, push_str, u64_to_string};

verus! {

/// The screen the mock game is on.
#[derive(Debug, Clone, Copy, PartialEq, Eq, Structural)]
pub enum Phase {
    MapScreen,
    Combat,
    Rewards,
}

/// The two cards the mock deals.
#[derive(Debug, Clone, Copy, PartialEq, Eq, Structural)]
pub enum MockCard {
    Strike,
    Defend,
}

pub open spec fn card_id(c: MockCard) -> Seq<char> {
    match c {
        MockCard::Strike => "STRIKE_R"@,
        MockCard::Defend => "DEFEND_R"@,
    }
}

pub open spec fn card_name(c: MockCard) -> Seq<char> {
    match c {
        MockCard::Strike => "Strike"@,
        MockCard::Defend => "Defend"@,
    }
}

pub open spec fn card_kind(c: MockCard) -> Seq<char> {
    match c {
        MockCard::Strike => "Attack"@,
        MockCard::Defend => "Skill"@,
    }
}

pub open spec fn card_target_type(c: MockCard) -> Seq<char> {
    match c {
        MockCard::Strike => "AnyEnemy"@,
        MockCard::Defend => "Self"@,
    }
}

pub open spec fn card_description(c: MockCard) -> Seq<char> {
    match c {
        MockCard::Strike => "Deal 6 damage."@,
        MockCard::Defend => "Gain 5 Block."@,
    }
}

/// An Attack needs a target.
pub open spec fn card_is_attack(c: MockCard) -> bool {
    c is Strike
}

pub open spec fn card_damage(c: MockCard) -> int {
    match c {
        MockCard::Strike => 6,
        MockCard::Defend => 0,
    }
}

pub open spec fn card_block(c: MockCard) -> int {
    match c {
        MockCard::Strike => 0,
        MockCard::Defend => 5,
    }
}

/// The energy a card costs: both cards cost `"1"`.
pub open spec fn card_cost(c: MockCard) -> int {
    1
}

/// The cost as the game server writes it.
pub const CARD_COST_TEXT: &'static str = "1";

impl MockCard {
    pub fn id(&self) -> (r: &'static str)
        ensures
            r@ == card_id(*self),
    {
        match self {
            MockCard::Strike => "STRIKE_R",
            MockCard::Defend => "DEFEND_R",
        }
    }

    pub fn name(&self) -> (r: &'static str)
        ensures
            r@ == card_name(*self),
    {
        match self {
            MockCard::Strike => "Strike",
            MockCard::Defend => "Defend",
        }
    }

    pub fn kind(&self) -> (r: &'static str)
        ensures
            r@ == card_kind(*self),
    {
        match self {
            MockCard::Strike => "Attack",
            MockCard::Defend => "Skill",
        }
    }

    pub fn target_type(&self) -> (r: &'static str)
        ensures
            r@ == card_target_type(*self),
    {
        match self {
            MockCard::Strike => "AnyEnemy",
            MockCard::Defend => "Self",
        }
    }

    pub fn description(&self) -> (r: &'static str)
        ensures
            r@ == card_description(*self),
    {
        match self {
            MockCard::Strike => "Deal 6 damage.",
            MockCard::Defend => "Gain 5 Block.",
        }
    }

    pub fn damage(&self) -> (r: i32)
        ensures
            r == card_damage(*self),
    {
        match self {
            MockCard::Strike => 6,
            MockCard::Defend => 0,
        }
    }

    pub fn block(&self) -> (r: i32)
        ensures
            r == card_block(*self),
    {
        match self {
            MockCard::Strike => 0,
            MockCard::Defend => 5,
        }
    }

    pub fn cost(&self) -> (r: i32)
        ensures
            r == card_cost(*self),
    {
        1
    }
}

/// The hand dealt at the start of each player turn.
pub open spec fn fresh_hand() -> Seq<MockCard> {
    seq![MockCard::Strike, MockCard::Defend, MockCard::Strike]
}

fn deal_hand() -> (r: Vec<MockCard>)
    ensures
        r@ == fresh_hand(),
{
    vec![MockCard::Strike, MockCard::Defend, MockCard::Strike]
}

/// The mathematical state of the mock game.
pub struct MockModel {
    pub phase: Phase,
    pub round: int,
    pub hp: int,
    pub max_hp: int,
    pub block: int,
    pub energy: int,
    pub gold: int,
    pub enemy_hp: int,
    pub enemy_max_hp: int,
    pub enemy_damage: int,
    pub hand: Seq<MockCard>,
}

/// What every reachable state satisfies: the fixed numbers keep their
/// values, hp never exceeds its maximum, energy stays in `0..=3`, the enemy's
/// hp in `0..=12`, and a hand of at most three cards, each card played having
/// added at most 5 block since the hand was dealt.
pub open spec fn model_wf(m: MockModel) -> bool {
    &&& m.max_hp == 80
    &&& m.enemy_max_hp == 12
    &&& m.enemy_damage == 5
    &&& m.hp <= m.max_hp
    &&& 0 <= m.energy <= 3
    &&& 0 <= m.enemy_hp <= m.enemy_max_hp
    &&& m.hand.len() <= 3
    &&& 0 <= m.block <= 5 * (3 - m.hand.len())
}

/// The states on which every tool can run without an integer overflowing:
/// gold can take one more 25-gold reward, hp one more enemy attack, and the
/// round counter one more turn.
pub open spec fn in_limits(m: MockModel) -> bool {
    &&& i32::MIN + 5 <= m.hp
    &&& m.gold <= i32::MAX - 25
    &&& m.round < u32::MAX
}

pub const NOT_IN_COMBAT: &'static str = r#"{"status":"error","error":"Not in combat."}"#;

pub const MISSING_CARD_INDEX: &'static str = r#"{"status":"error","error":"Missing card_index."}"#;

pub const INVALID_CARD_INDEX: &'static str = r#"{"status":"error","error":"Invalid card_index."}"#;

pub const NOT_ENOUGH_ENERGY: &'static str = r#"{"status":"error","error":"Not enough energy."}"#;

pub const NEEDS_TARGET: &'static str = r#"{"status":"error","error":"Card requires a target."}"#;

pub const PLAYING_HEAD: &'static str = r#"{"status":"ok","message":"Playing '"#;

pub const PLAYING_TARGETING: &'static str = "' targeting ";

pub const PLAYING_GAIN: &'static str = "' (gain ";

pub const PLAYING_BLOCK_TAIL: &'static str = r#" Block)"}"#;

pub const MESSAGE_TAIL: &'static str = r#""}"#;

pub const TURN_ENDED: &'static str = r#"{"status":"ok","message":"Turn ended."}"#;

pub const NOT_ON_MAP: &'static str = r#"{"status":"error","error":"Not on map."}"#;

pub const MISSING_NODE_INDEX: &'static str = r#"{"status":"error","error":"Missing node_index."}"#;

pub const ONLY_NODE_ZERO: &'static str = r#"{"status":"error","error":"Mock only supports node 0 (Monster)."}"#;

pub const ENTERING_COMBAT: &'static str = r#"{"status":"ok","message":"Entering combat."}"#;

pub const NOT_ON_REWARDS: &'static str = r#"{"status":"error","error":"Not on rewards screen."}"#;

pub const MISSING_REWARD_INDEX: &'static str = r#"{"status":"error","error":"Missing reward_index."}"#;

pub const CLAIMED_GOLD: &'static str = r#"{"status":"ok","message":"Claimed 25 gold."}"#;

pub const CLAIMED_POTION: &'static str = r#"{"status":"ok","message":"Claimed Fire Potion."}"#;

pub const INVALID_REWARD_INDEX: &'static str = r#"{"status":"error","error":"Invalid reward_index."}"#;

pub const CANNOT_PROCEED: &'static str = r#"{"status":"error","error":"Cannot proceed from current screen."}"#;

pub const PROCEEDING: &'static str = r#"{"status":"ok","message":"Proceeding to map."}"#;

/// The message for a card played: the target for an attack, the block gained otherwise.
pub open spec fn play_message(c: MockCard, target: Seq<char>) -> Seq<char> {
    if card_damage(c) > 0 {
        PLAYING_HEAD@ + card_name(c) + PLAYING_TARGETING@ + target + MESSAGE_TAIL@
    } else {
        PLAYING_HEAD@ + card_name(c) + PLAYING_GAIN@ + dec_int(card_block(c)) + PLAYING_BLOCK_TAIL@
    }
}

/// `combat_play_card`: the reply, whether it is an error, and the next state.
pub open spec fn play_card_step(m: MockModel, args: Json) -> (Seq<char>, bool, MockModel) {
    if m.phase != Phase::Combat {
        (NOT_IN_COMBAT@, true, m)
    } else {
        match as_u64(field(args, "card_index"@)) {
            None => (MISSING_CARD_INDEX@, true, m),
            Some(i) => if i >= m.hand.len() {
                (INVALID_CARD_INDEX@, true, m)
            } else {
                let c = m.hand[i as int];
                let target = as_str(field(args, "target"@));
                if m.energy < card_cost(c) {
                    (NOT_ENOUGH_ENERGY@, true, m)
                } else if card_is_attack(c) && target is None {
                    (NEEDS_TARGET@, true, m)
                } else {
                    let enemy_hp = if m.enemy_hp - card_damage(c) > 0 {
                        m.enemy_hp - card_damage(c)
                    } else {
                        0
                    };
                    let t = match target {
                        Some(t) => t,
                        None => Seq::empty(),
                    };
                    (
                        play_message(c, t),
                        false,
                        MockModel {
                            energy: m.energy - card_cost(c),
                            enemy_hp: enemy_hp,
                            block: m.block + card_block(c),
                            hand: m.hand.remove(i as int),
                            phase: if enemy_hp <= 0 {
                                Phase::Rewards
                            } else {
                                Phase::Combat
                            },
                            ..m
                        },
                    )
                }
            },
        }
    }
}

/// `combat_end_turn`: the enemy attacks through the block, and a new turn
/// starts with full energy and a fresh hand.
pub open spec fn end_turn_step(m: MockModel) -> (Seq<char>, bool, MockModel) {
    if m.phase != Phase::Combat {
        (NOT_IN_COMBAT@, true, m)
    } else {
        let dmg = if m.enemy_damage - m.block > 0 {
            m.enemy_damage - m.block
        } else {
            0
        };
        (
            TURN_ENDED@,
            false,
            MockModel {
                hp: m.hp - dmg,
                block: 0,
                energy: 3,
                round: m.round + 1,
                hand: fresh_hand(),
                ..m
            },
        )
    }
}

/// `map_choose_node`: only node 0, a monster, is offered.
pub open spec fn choose_node_step(m: MockModel, args: Json) -> (Seq<char>, bool, MockModel) {
    if m.phase != Phase::MapScreen {
        (NOT_ON_MAP@, true, m)
    } else {
        match as_u64(field(args, "node_index"@)) {
            None => (MISSING_NODE_INDEX@, true, m),
            Some(n) => if n != 0 {
                (ONLY_NODE_ZERO@, true, m)
            } else {
                (
                    ENTERING_COMBAT@,
                    false,
                    MockModel {
                        phase: Phase::Combat,
                        round: 1,
                        energy: 3,
                        block: 0,
                        enemy_hp: m.enemy_max_hp,
                        hand: fresh_hand(),
                        ..m
                    },
                )
            },
        }
    }
}

/// `rewards_claim`: reward 0 is 25 gold, reward 1 a potion.
pub open spec fn claim_step(m: MockModel, args: Json) -> (Seq<char>, bool, MockModel) {
    if m.phase != Phase::Rewards {
        (NOT_ON_REWARDS@, true, m)
    } else {
        match as_u64(field(args, "reward_index"@)) {
            None => (MISSING_REWARD_INDEX@, true, m),
            Some(i) => if i == 0 {
                (CLAIMED_GOLD@, false, MockModel { gold: m.gold + 25, ..m })
            } else if i == 1 {
                (CLAIMED_POTION@, false, m)
            } else {
                (INVALID_REWARD_INDEX@, true, m)
            },
        }
    }
}

/// `proceed_to_map`: back to the map, healing 6 hp (Burning Blood) up to the maximum.
pub open spec fn proceed_step(m: MockModel) -> (Seq<char>, bool, MockModel) {
    if m.phase != Phase::Rewards {
        (CANNOT_PROCEED@, true, m)
    } else {
        let hp = if m.hp + 6 < m.max_hp {
            m.hp + 6
        } else {
            m.max_hp
        };
        (PROCEEDING@, false, MockModel { phase: Phase::MapScreen, hp: hp, ..m })
    }
}

/// The scripted game.
pub struct MockGame {
    phase: Phase,
    round: u32,
    player_hp: i32,
    player_max_hp: i32,
    player_block: i32,
    player_energy: i32,
    player_gold: i32,
    enemy_hp: i32,
    enemy_max_hp: i32,
    enemy_damage: i32,
    hand: Vec<MockCard>,
}

impl View for MockGame {
    type V = MockModel;

    closed spec fn view(&self) -> MockModel {
        MockModel {
            phase: self.phase,
            round: self.round as int,
            hp: self.player_hp as int,
            max_hp: self.player_max_hp as int,
            block: self.player_block as int,
            energy: self.player_energy as int,
            gold: self.player_gold as int,
            enemy_hp: self.enemy_hp as int,
            enemy_max_hp: self.enemy_max_hp as int,
            enemy_damage: self.enemy_damage as int,
            hand: self.hand@,
        }
    }
}

/// The state a new game starts in: on the map, 72/80 hp, 99 gold, a
/// 12-hp Jaw Worm ahead that hits for 5, no hand.
pub open spec fn initial_model() -> MockModel {
    MockModel {
        phase: Phase::MapScreen,
        round: 0,
        hp: 72,
        max_hp: 80,
        block: 0,
        energy: 3,
        gold: 99,
        enemy_hp: 12,
        enemy_max_hp: 12,
        enemy_damage: 5,
        hand: Seq::empty(),
    }
}

impl Default for MockGame {
    fn default() -> (g: MockGame)
        ensures
            g@ == initial_model(),
            g.wf(),
    {
        MockGame::new()
    }
}

impl MockGame {
    /// The game's invariant, over its model.
    pub open spec fn wf(&self) -> bool {
        model_wf(self@)
    }

    pub fn new() -> (g: MockGame)
        ensures
            g@ == initial_model(),
            g.wf(),
    {
        let g = MockGame {
            phase: Phase::MapScreen,
            round: 0,
            player_hp: 72,
            player_max_hp: 80,
            player_block: 0,
            player_energy: 3,
            player_gold: 99,
            enemy_hp: 12,
            enemy_max_hp: 12,
            enemy_damage: 5,
            hand: Vec::new(),
        };
        assert(g@.hand =~= Seq::<MockCard>::empty());
        g
    }

    /// Whether every tool can run on this state (see `in_limits`).
    pub fn within_limits(&self) -> (b: bool)
        ensures
            b == in_limits(self@),
    {
        self.player_hp >= i32::MIN + 5 && self.player_gold <= i32::MAX - 25 && self.round < u32::MAX
    }

    pub fn phase(&self) -> (r: Phase)
        ensures
            r == self@.phase,
    {
        self.phase
    }

    pub fn round(&self) -> (r: u32)
        ensures
            r == self@.round,
    {
        self.round
    }

    pub fn player_hp(&self) -> (r: i32)
        ensures
            r == self@.hp,
    {
        self.player_hp
    }

    pub fn player_block(&self) -> (r: i32)
        ensures
            r == self@.block,
    {
        self.player_block
    }

    pub fn player_energy(&self) -> (r: i32)
        ensures
            r == self@.energy,
    {
        self.player_energy
    }

    pub fn player_gold(&self) -> (r: i32)
        ensures
            r == self@.gold,
    {
        self.player_gold
    }

    pub fn enemy_hp(&self) -> (r: i32)
        ensures
            r == self@.enemy_hp,
    {
        self.enemy_hp
    }

    pub fn hand_len(&self) -> (r: usize)
        ensures
            r == self@.hand.len(),
    {
        self.hand.len()
    }

    /// `combat_play_card`: plays the card at `card_index` on `target`.
    pub fn combat_play_card(&mut self, args: &JsonValue) -> (r: (String, bool))
        requires
            old(self).wf(),
        ensures
            final(self).wf(),
            (r.0@, r.1, final(self)@) == play_card_step(old(self)@, args@),
    {
        if self.phase != Phase::Combat {
            return (copy_str(NOT_IN_COMBAT), true);
        }
        let idx = match opt_as_u64(field_ref(Some(args), "card_index")) {
            Some(i) => i,
            None => return (copy_str(MISSING_CARD_INDEX), true),
        };
        if idx >= self.hand.len() as u64 {
            return (copy_str(INVALID_CARD_INDEX), true);
        }
        let i = idx as usize;
        let card = self.hand[i];
        let cost = card.cost();
        if self.player_energy < cost {
            return (copy_str(NOT_ENOUGH_ENERGY), true);
        }
        let target = opt_as_str(field_ref(Some(args), "target"));
        if card == MockCard::Strike && target.is_none() {
            return (copy_str(NEEDS_TARGET), true);
        }
        let ghost old_m = self@;
        self.player_energy = self.player_energy - cost;
        let left = self.enemy_hp - card.damage();
        self.enemy_hp = if left > 0 {
            left
        } else {
            0
        };
        self.player_block = self.player_block + card.block();
        let t = match target {
            Some(t) => t,
            None => "",
        };
        let mut msg = copy_str(PLAYING_HEAD);
        push_str(&mut msg, card.name());
        if card.damage() > 0 {
            push_str(&mut msg, PLAYING_TARGETING);
            push_str(&mut msg, t);
            push_str(&mut msg, MESSAGE_TAIL);
        } else {
            push_str(&mut msg, PLAYING_GAIN);
            push_str(&mut msg, i64_to_string(card.block() as i64).as_str());
            push_str(&mut msg, PLAYING_BLOCK_TAIL);
        }
        self.hand.remove(i);
        if self.enemy_hp <= 0 {
            self.phase = Phase::Rewards;
        }
        proof {
            reveal_strlit("");
            assert(self@.hand == old_m.hand.remove(i as int));
        }
        (msg, false)
    }

    /// `combat_end_turn`: the enemy attacks, then a new turn begins.
    pub fn combat_end_turn(&mut self) -> (r: (String, bool))
        requires
            old(self).wf(),
            in_limits(old(self)@),
        ensures
            final(self).wf(),
            (r.0@, r.1, final(self)@) == end_turn_step(old(self)@),
    {
        if self.phase != Phase::Combat {
            return (copy_str(NOT_IN_COMBAT), true);
        }
        let over = self.enemy_damage - self.player_block;
        let dmg = if over > 0 {
            over
        } else {
            0
        };
        self.player_hp = self.player_hp - dmg;
        self.player_block = 0;
        self.player_energy = 3;
        self.round = self.round + 1;
        self.hand = deal_hand();
        (copy_str(TURN_ENDED), false)
    }

    /// `map_choose_node`: enters the fight behind node 0.
    pub fn map_choose_node(&mut self, args: &JsonValue) -> (r: (String, bool))
        requires
            old(self).wf(),
        ensures
            final(self).wf(),
            (r.0@, r.1, final(self)@) == choose_node_step(old(self)@, args@),
    {
        if self.phase != Phase::MapScreen {
            return (copy_str(NOT_ON_MAP), true);
        }
        let node = match opt_as_u64(field_ref(Some(args), "node_index")) {
            Some(n) => n,
            None => return (copy_str(MISSING_NODE_INDEX), true),
        };
        if node != 0 {
            return (copy_str(ONLY_NODE_ZERO), true);
        }
        self.phase = Phase::Combat;
        self.round = 1;
        self.player_energy = 3;
        self.player_block = 0;
        self.enemy_hp = self.enemy_max_hp;
        self.hand = deal_hand();
        (copy_str(ENTERING_COMBAT), false)
    }

    /// `rewards_claim`: claims reward 0 (gold) or 1 (a potion).
    pub fn rewards_claim(&mut self, args: &JsonValue) -> (r: (String, bool))
        requires
            old(self).wf(),
            in_limits(old(self)@),
        ensures
            final(self).wf(),
            (r.0@, r.1, final(self)@) == claim_step(old(self)@, args@),
    {
        if self.phase != Phase::Rewards {
            return (copy_str(NOT_ON_REWARDS), true);
        }
        let idx = match opt_as_u64(field_ref(Some(args), "reward_index")) {
            Some(i) => i,
            None => return (copy_str(MISSING_REWARD_INDEX), true),
        };
        if idx == 0 {
            self.player_gold = self.player_gold + 25;
            (copy_str(CLAIMED_GOLD), false)
        } else if idx == 1 {
            (copy_str(CLAIMED_POTION), false)
        } else {
            (copy_str(INVALID_REWARD_INDEX), true)
        }
    }

    /// `proceed_to_map`: leaves the rewards screen, healing 6 hp.
    pub fn proceed_to_map(&mut self) -> (r: (String, bool))
        requires
            old(self).wf(),
        ensures
            final(self).wf(),
            (r.0@, r.1, final(self)@) == proceed_step(old(self)@),
    {
        if self.phase != Phase::Rewards {
            return (copy_str(CANNOT_PROCEED), true);
        }
        self.phase = Phase::MapScreen;
        let healed = self.player_hp + 6;
        self.player_hp = if healed < self.player_max_hp {
            healed
        } else {
            self.player_max_hp
        };
        (copy_str(PROCEEDING), false)
    }
}

// ---------------------------------------------------------------------------
// The state as JSON and as markdown
// ---------------------------------------------------------------------------

pub open spec fn empty_array() -> Json {
    Json::Array(Seq::empty())
}

pub open spec fn run_json() -> Json {
    obj3("act"@, Json::Int(1), "floor"@, Json::Int(3), "ascension"@, Json::Int(0))
}

pub open spec fn relic_json() -> Json {
    Json::Object(
        seq!["id"@, "name"@, "description"@, "counter"@, "keywords"@],
        seq![
            Json::Str("BURNING_BLOOD"@),
            Json::Str("Burning Blood"@),
            Json::Str("At the end of combat, heal 6 HP."@),
            Json::Null,
            empty_array(),
        ],
    )
}

/// The player outside combat.
pub open spec fn player_json(m: MockModel) -> Json {
    Json::Object(
        seq![
            "character"@,
            "hp"@,
            "max_hp"@,
            "block"@,
            "gold"@,
            "relics"@,
            "potions"@,
            "max_potion_slots"@,
            "status"@,
        ],
        seq![
            Json::Str("The Ironclad"@),
            Json::Int(m.hp),
            Json::Int(m.max_hp),
            Json::Int(m.block),
            Json::Int(m.gold),
            Json::Array(seq![relic_json()]),
            empty_array(),
            Json::Int(3),
            empty_array(),
        ],
    )
}

pub open spec fn node_json(index: int, col: int, row: int, kind: Seq<char>) -> Json {
    Json::Object(
        seq!["index"@, "col"@, "row"@, "type"@],
        seq![Json::Int(index), Json::Int(col), Json::Int(row), Json::Str(kind)],
    )
}

pub open spec fn map_state_json(m: MockModel) -> Json {
    Json::Object(
        seq!["state_type"@, "run"@, "player"@, "map"@],
        seq![
            Json::Str("map"@),
            run_json(),
            player_json(m),
            obj2(
                "current_position"@,
                obj3("col"@, Json::Int(3), "row"@, Json::Int(2), "type"@, Json::Str("Monster"@)),
                "next_options"@,
                Json::Array(
                    seq![
                        node_json(0, 2, 3, "Monster"@),
                        node_json(1, 3, 3, "RestSite"@),
                        node_json(2, 4, 3, "Shop"@),
                    ],
                ),
            ),
        ],
    )
}

/// A card in hand at position `i`, playable when the energy covers its cost.
pub open spec fn hand_card_json(c: MockCard, i: int, energy: int) -> Json {
    Json::Object(
        seq![
            "index"@,
            "id"@,
            "name"@,
            "type"@,
            "cost"@,
            "star_cost"@,
            "description"@,
            "target_type"@,
            "can_play"@,
            "unplayable_reason"@,
            "is_upgraded"@,
            "keywords"@,
        ],
        seq![
            Json::Int(i),
            Json::Str(card_id(c)),
            Json::Str(card_name(c)),
            Json::Str(card_kind(c)),
            Json::Str(CARD_COST_TEXT@),
            Json::Null,
            Json::Str(card_description(c)),
            Json::Str(card_target_type(c)),
            Json::Bool(energy >= card_cost(c)),
            Json::Null,
            Json::Bool(false),
            empty_array(),
        ],
    )
}

pub open spec fn hand_json(m: MockModel) -> Seq<Json> {
    Seq::new(m.hand.len(), |i: int| hand_card_json(m.hand[i], i, m.energy))
}

pub const ENEMY_NAME: &'static str = "Jaw Worm";

pub const ENEMY_ENTITY_ID: &'static str = "JAW_WORM_0";

pub open spec fn intent_json(m: MockModel) -> Json {
    Json::Object(
        seq!["type"@, "label"@, "title"@, "description"@],
        seq![
            Json::Str("Attack"@),
            Json::Str(dec_int(m.enemy_damage)),
            Json::Str("Attack"@),
            Json::Str("Deals "@ + dec_int(m.enemy_damage) + " damage."@),
        ],
    )
}

pub open spec fn enemy_json(m: MockModel) -> Json {
    Json::Object(
        seq!["entity_id"@, "combat_id"@, "name"@, "hp"@, "max_hp"@, "block"@, "status"@, "intents"@],
        seq![
            Json::Str(ENEMY_ENTITY_ID@),
            Json::Int(1),
            Json::Str(ENEMY_NAME@),
            Json::Int(m.enemy_hp),
            Json::Int(m.enemy_max_hp),
            Json::Int(0),
            empty_array(),
            Json::Array(seq![intent_json(m)]),
        ],
    )
}

/// The player in combat.
pub open spec fn fighter_json(m: MockModel) -> Json {
    Json::Object(
        seq![
            "character"@,
            "hp"@,
            "max_hp"@,
            "block"@,
            "gold"@,
            "energy"@,
            "max_energy"@,
            "hand"@,
            "draw_pile_count"@,
            "discard_pile_count"@,
            "exhaust_pile_count"@,
            "status"@,
            "relics"@,
            "potions"@,
            "max_potion_slots"@,
        ],
        seq![
            Json::Str("The Ironclad"@),
            Json::Int(m.hp),
            Json::Int(m.max_hp),
            Json::Int(m.block),
            Json::Int(m.gold),
            Json::Int(m.energy),
            Json::Int(3),
            Json::Array(hand_json(m)),
            Json::Int(10),
            Json::Int(0),
            Json::Int(0),
            empty_array(),
            Json::Array(seq![relic_json()]),
            empty_array(),
            Json::Int(3),
        ],
    )
}

pub open spec fn combat_state_json(m: MockModel) -> Json {
    Json::Object(
        seq!["state_type"@, "battle"@, "run"@, "player"@],
        seq![
            Json::Str("monster"@),
            Json::Object(
                seq!["round"@, "turn"@, "is_play_phase"@, "enemies"@],
                seq![
                    Json::Int(m.round),
                    Json::Str("player"@),
                    Json::Bool(true),
                    Json::Array(seq![enemy_json(m)]),
                ],
            ),
            run_json(),
            fighter_json(m),
        ],
    )
}

pub open spec fn rewards_state_json(m: MockModel) -> Json {
    Json::Object(
        seq!["state_type"@, "run"@, "player"@, "rewards"@],
        seq![
            Json::Str("rewards"@),
            run_json(),
            player_json(m),
            obj2(
                "items"@,
                Json::Array(
                    seq![
                        Json::Object(
                            seq!["index"@, "type"@, "description"@, "gold_amount"@],
                            seq![
                                Json::Int(0),
                                Json::Str("gold"@),
                                Json::Str("Obtain 25 gold."@),
                                Json::Int(25),
                            ],
                        ),
                        Json::Object(
                            seq!["index"@, "type"@, "description"@, "potion_id"@, "potion_name"@],
                            seq![
                                Json::Int(1),
                                Json::Str("potion"@),
                                Json::Str("Obtain a potion."@),
                                Json::Str("FIRE_POTION"@),
                                Json::Str("Fire Potion"@),
                            ],
                        ),
                    ],
                ),
                "can_proceed"@,
                Json::Bool(true),
            ),
        ],
    )
}

/// The game state as the server's JSON.
pub open spec fn state_json(m: MockModel) -> Json {
    match m.phase {
        Phase::MapScreen => map_state_json(m),
        Phase::Combat => combat_state_json(m),
        Phase::Rewards => rewards_state_json(m),
    }
}

/// The game state as the server's markdown.
pub open spec fn state_markdown(m: MockModel) -> Seq<char> {
    match m.phase {
        Phase::MapScreen => "## Map (Act 1, Floor 3)\nPlayer: The Ironclad, "@ + dec_int(m.hp) + "/"@
            + dec_int(m.max_hp) + " HP, "@ + dec_int(m.gold)
            + " gold\n\nNext options:\n[0] Monster\n[1] RestSite\n[2] Shop"@,
        Phase::Combat => "## Combat (Round "@ + dec_int(m.round) + ")\nPlayer: "@ + dec_int(m.hp) + "/"@
            + dec_int(m.max_hp) + " HP, "@ + dec_int(m.block) + " block, "@ + dec_int(m.energy)
            + "/3 energy\nEnemy: "@ + ENEMY_NAME@ + " ("@ + dec_int(m.enemy_hp) + "/"@ + dec_int(
            m.enemy_max_hp,
        ) + " HP)\nIntent: Attack "@ + dec_int(m.enemy_damage),
        Phase::Rewards => "## Rewards\nPlayer: "@ + dec_int(m.hp) + "/"@ + dec_int(m.max_hp) + " HP, "@
            + dec_int(m.gold) + " gold\n\n[0] 25 gold\n[1] Fire Potion"@,
    }
}

fn int_value(n: i64) -> (r: JsonValue)
    ensures
        r@ == Json::Int(n as int),
{
    JsonValue::Int(n as i128)
}

fn empty_array_value() -> (r: JsonValue)
    ensures
        r@ == empty_array(),
{
    array_of(new_items())
}

fn run_value() -> (r: JsonValue)
    ensures
        r@ == run_json(),
{
    mk_obj3("act", int_value(1), "floor", int_value(3), "ascension", int_value(0))
}

fn relic_value() -> (r: JsonValue)
    ensures
        r@ == relic_json(),
{
    let mut ms = new_members();
    add_member(&mut ms, "id", jstring("BURNING_BLOOD"));
    add_member(&mut ms, "name", jstring("Burning Blood"));
    add_member(&mut ms, "description", jstring("At the end of combat, heal 6 HP."));
    add_member(&mut ms, "counter", JsonValue::Null);
    add_member(&mut ms, "keywords", empty_array_value());
    proof {
        assert(mkeys(ms@) =~= relic_json()->Object_0);
        assert(mvals(ms@) =~= relic_json()->Object_1);
    }
    let r = object_of(ms);
    r
}

fn relics_value() -> (r: JsonValue)
    ensures
        r@ == Json::Array(seq![relic_json()]),
{
    let mut items = new_items();
    push_item(&mut items, relic_value());
    array_of(items)
}

fn node_value(index: i64, col: i64, row: i64, kind: &str) -> (r: JsonValue)
    ensures
        r@ == node_json(index as int, col as int, row as int, kind@),
{
    let mut ms = new_members();
    add_member(&mut ms, "index", int_value(index));
    add_member(&mut ms, "col", int_value(col));
    add_member(&mut ms, "row", int_value(row));
    add_member(&mut ms, "type", jstring(kind));
    proof {
        assert(mkeys(ms@) =~= node_json(index as int, col as int, row as int, kind@)->Object_0);
        assert(mvals(ms@) =~= node_json(index as int, col as int, row as int, kind@)->Object_1);
    }
    let r = object_of(ms);
    r
}

fn hand_card_value(c: MockCard, i: usize, energy: i32) -> (r: JsonValue)
    ensures
        r@ == hand_card_json(c, i as int, energy as int),
{
    let mut ms = new_members();
    add_member(&mut ms, "index", JsonValue::Int(i as i128));
    add_member(&mut ms, "id", jstring(c.id()));
    add_member(&mut ms, "name", jstring(c.name()));
    add_member(&mut ms, "type", jstring(c.kind()));
    add_member(&mut ms, "cost", jstring(CARD_COST_TEXT));
    add_member(&mut ms, "star_cost", JsonValue::Null);
    add_member(&mut ms, "description", jstring(c.description()));
    add_member(&mut ms, "target_type", jstring(c.target_type()));
    add_member(&mut ms, "can_play", JsonValue::Bool(energy >= c.cost()));
    add_member(&mut ms, "unplayable_reason", JsonValue::Null);
    add_member(&mut ms, "is_upgraded", JsonValue::Bool(false));
    add_member(&mut ms, "keywords", empty_array_value());
    proof {
        assert(mkeys(ms@) =~= hand_card_json(c, i as int, energy as int)->Object_0);
        assert(mvals(ms@) =~= hand_card_json(c, i as int, energy as int)->Object_1);
    }
    let r = object_of(ms);
    r
}

fn dec_string(n: i32) -> (r: String)
    ensures
        r@ == dec_int(n as int),
{
    i64_to_string(n as i64)
}

impl MockGame {
    fn player_value(&self) -> (r: JsonValue)
        ensures
            r@ == player_json(self@),
    {
        let mut ms = new_members();
        add_member(&mut ms, "character", jstring("The Ironclad"));
        add_member(&mut ms, "hp", int_value(self.player_hp as i64));
        add_member(&mut ms, "max_hp", int_value(self.player_max_hp as i64));
        add_member(&mut ms, "block", int_value(self.player_block as i64));
        add_member(&mut ms, "gold", int_value(self.player_gold as i64));
        add_member(&mut ms, "relics", relics_value());
        add_member(&mut ms, "potions", empty_array_value());
        add_member(&mut ms, "max_potion_slots", int_value(3));
        add_member(&mut ms, "status", empty_array_value());
        proof {
            assert(mkeys(ms@) =~= player_json(self@)->Object_0);
            assert(mvals(ms@) =~= player_json(self@)->Object_1);
        }
        let r = object_of(ms);
        r
    }

    fn map_value(&self) -> (r: JsonValue)
        ensures
            r@ == map_state_json(self@),
    {
        let pos = mk_obj3("col", int_value(3), "row", int_value(2), "type", jstring("Monster"));
        let mut opts = new_items();
        push_item(&mut opts, node_value(0, 2, 3, "Monster"));
        push_item(&mut opts, node_value(1, 3, 3, "RestSite"));
        push_item(&mut opts, node_value(2, 4, 3, "Shop"));
        proof {
            assert(item_views(opts@) =~= map_state_json(self@)->Object_1[3]->Object_1[1]->Array_0);
        }
        let map = mk_obj2("current_position", pos, "next_options", array_of(opts));
        let mut ms = new_members();
        add_member(&mut ms, "state_type", jstring("map"));
        add_member(&mut ms, "run", run_value());
        add_member(&mut ms, "player", self.player_value());
        add_member(&mut ms, "map", map);
        proof {
            assert(mkeys(ms@) =~= map_state_json(self@)->Object_0);
            assert(mvals(ms@) =~= map_state_json(self@)->Object_1);
        }
        let r = object_of(ms);
        r
    }

    fn hand_value(&self) -> (r: JsonValue)
        ensures
            r@ == Json::Array(hand_json(self@)),
    {
        let mut items = new_items();
        let mut i: usize = 0;
        while i < self.hand.len()
            invariant
                i <= self.hand@.len(),
                item_views(items@) == hand_json(self@).take(i as int),
            decreases self.hand@.len() - i,
        {
            let v = hand_card_value(self.hand[i], i, self.player_energy);
            push_item(&mut items, v);
            i = i + 1;
            assert(item_views(items@) =~= hand_json(self@).take(i as int));
        }
        assert(hand_json(self@).take(i as int) =~= hand_json(self@));
        array_of(items)
    }

    fn enemy_value(&self) -> (r: JsonValue)
        ensures
            r@ == enemy_json(self@),
    {
        let mut desc = copy_str("Deals ");
        push_str(&mut desc, dec_string(self.enemy_damage).as_str());
        push_str(&mut desc, " damage.");
        let mut im = new_members();
        add_member(&mut im, "type", jstring("Attack"));
        add_member(&mut im, "label", JsonValue::Str(dec_string(self.enemy_damage)));
        add_member(&mut im, "title", jstring("Attack"));
        add_member(&mut im, "description", JsonValue::Str(desc));
        proof {
            assert(mkeys(im@) =~= intent_json(self@)->Object_0);
            assert(mvals(im@) =~= intent_json(self@)->Object_1);
        }
        let mut intents = new_items();
        push_item(&mut intents, object_of(im));
        let mut ms = new_members();
        add_member(&mut ms, "entity_id", jstring(ENEMY_ENTITY_ID));
        add_member(&mut ms, "combat_id", int_value(1));
        add_member(&mut ms, "name", jstring(ENEMY_NAME));
        add_member(&mut ms, "hp", int_value(self.enemy_hp as i64));
        add_member(&mut ms, "max_hp", int_value(self.enemy_max_hp as i64));
        add_member(&mut ms, "block", int_value(0));
        add_member(&mut ms, "status", empty_array_value());
        add_member(&mut ms, "intents", array_of(intents));
        proof {
            assert(mkeys(ms@) =~= enemy_json(self@)->Object_0);
            assert(mvals(ms@) =~= enemy_json(self@)->Object_1);
        }
        let r = object_of(ms);
        r
    }

    fn fighter_value(&self) -> (r: JsonValue)
        ensures
            r@ == fighter_json(self@),
    {
        let mut ms = new_members();
        add_member(&mut ms, "character", jstring("The Ironclad"));
        add_member(&mut ms, "hp", int_value(self.player_hp as i64));
        add_member(&mut ms, "max_hp", int_value(self.player_max_hp as i64));
        add_member(&mut ms, "block", int_value(self.player_block as i64));
        add_member(&mut ms, "gold", int_value(self.player_gold as i64));
        add_member(&mut ms, "energy", int_value(self.player_energy as i64));
        add_member(&mut ms, "max_energy", int_value(3));
        add_member(&mut ms, "hand", self.hand_value());
        add_member(&mut ms, "draw_pile_count", int_value(10));
        add_member(&mut ms, "discard_pile_count", int_value(0));
        add_member(&mut ms, "exhaust_pile_count", int_value(0));
        add_member(&mut ms, "status", empty_array_value());
        add_member(&mut ms, "relics", relics_value());
        add_member(&mut ms, "potions", empty_array_value());
        add_member(&mut ms, "max_potion_slots", int_value(3));
        proof {
            assert(mkeys(ms@) =~= fighter_json(self@)->Object_0);
            assert(mvals(ms@) =~= fighter_json(self@)->Object_1);
        }
        let r = object_of(ms);
        r
    }

    fn combat_value(&self) -> (r: JsonValue)
        ensures
            r@ == combat_state_json(self@),
    {
        let mut enemies = new_items();
        push_item(&mut enemies, self.enemy_value());
        let mut bm = new_members();
        add_member(&mut bm, "round", int_value(self.round as i64));
        add_member(&mut bm, "turn", jstring("player"));
        add_member(&mut bm, "is_play_phase", JsonValue::Bool(true));
        add_member(&mut bm, "enemies", array_of(enemies));
        proof {
            assert(mkeys(bm@) =~= combat_state_json(self@)->Object_1[1]->Object_0);
            assert(mvals(bm@) =~= combat_state_json(self@)->Object_1[1]->Object_1);
        }
        let mut ms = new_members();
        add_member(&mut ms, "state_type", jstring("monster"));
        add_member(&mut ms, "battle", object_of(bm));
        add_member(&mut ms, "run", run_value());
        add_member(&mut ms, "player", self.fighter_value());
        proof {
            assert(mkeys(ms@) =~= combat_state_json(self@)->Object_0);
            assert(mvals(ms@) =~= combat_state_json(self@)->Object_1);
        }
        let r = object_of(ms);
        r
    }

    fn rewards_value(&self) -> (r: JsonValue)
        ensures
            r@ == rewards_state_json(self@),
    {
        let mut gm = new_members();
        add_member(&mut gm, "index", int_value(0));
        add_member(&mut gm, "type", jstring("gold"));
        add_member(&mut gm, "description", jstring("Obtain 25 gold."));
        add_member(&mut gm, "gold_amount", int_value(25));
        let mut pm = new_members();
        add_member(&mut pm, "index", int_value(1));
        add_member(&mut pm, "type", jstring("potion"));
        add_member(&mut pm, "description", jstring("Obtain a potion."));
        add_member(&mut pm, "potion_id", jstring("FIRE_POTION"));
        add_member(&mut pm, "potion_name", jstring("Fire Potion"));
        let ghost items_spec = rewards_state_json(self@)->Object_1[3]->Object_1[0]->Array_0;
        proof {
            assert(mkeys(gm@) =~= items_spec[0]->Object_0);
            assert(mvals(gm@) =~= items_spec[0]->Object_1);
            assert(mkeys(pm@) =~= items_spec[1]->Object_0);
            assert(mvals(pm@) =~= items_spec[1]->Object_1);
        }
        let mut items = new_items();
        push_item(&mut items, object_of(gm));
        push_item(&mut items, object_of(pm));
        proof {
            assert(item_views(items@) =~= items_spec);
        }
        let rewards = mk_obj2("items", array_of(items), "can_proceed", JsonValue::Bool(true));
        let mut ms = new_members();
        add_member(&mut ms, "state_type", jstring("rewards"));
        add_member(&mut ms, "run", run_value());
        add_member(&mut ms, "player", self.player_value());
        add_member(&mut ms, "rewards", rewards);
        proof {
            assert(mkeys(ms@) =~= rewards_state_json(self@)->Object_0);
            assert(mvals(ms@) =~= rewards_state_json(self@)->Object_1);
        }
        let r = object_of(ms);
        r
    }

    /// The state as the server's JSON.
    pub fn state_json(&self) -> (r: JsonValue)
        ensures
            r@ == state_json(self@),
    {
        match self.phase {
            Phase::MapScreen => self.map_value(),
            Phase::Combat => self.combat_value(),
            Phase::Rewards => self.rewards_value(),
        }
    }

    /// The state as the server's markdown.
    pub fn state_markdown(&self) -> (r: String)
        ensures
            r@ == state_markdown(self@),
    {
        let mut s = String::new();
        match self.phase {
            Phase::MapScreen => {
                push_str(&mut s, "## Map (Act 1, Floor 3)\nPlayer: The Ironclad, ");
                push_str(&mut s, dec_string(self.player_hp).as_str());
                push_str(&mut s, "/");
                push_str(&mut s, dec_string(self.player_max_hp).as_str());
                push_str(&mut s, " HP, ");
                push_str(&mut s, dec_string(self.player_gold).as_str());
                push_str(&mut s, " gold\n\nNext options:\n[0] Monster\n[1] RestSite\n[2] Shop");
            },
            Phase::Combat => {
                push_str(&mut s, "## Combat (Round ");
                push_str(&mut s, u64_to_string(self.round as u64).as_str());
                push_str(&mut s, ")\nPlayer: ");
                push_str(&mut s, dec_string(self.player_hp).as_str());
                push_str(&mut s, "/");
                push_str(&mut s, dec_string(self.player_max_hp).as_str());
                push_str(&mut s, " HP, ");
                push_str(&mut s, dec_string(self.player_block).as_str());
                push_str(&mut s, " block, ");
                push_str(&mut s, dec_string(self.player_energy).as_str());
                push_str(&mut s, "/3 energy\nEnemy: ");
                push_str(&mut s, ENEMY_NAME);
                push_str(&mut s, " (");
                push_str(&mut s, dec_string(self.enemy_hp).as_str());
                push_str(&mut s, "/");
                push_str(&mut s, dec_string(self.enemy_max_hp).as_str());
                push_str(&mut s, " HP)\nIntent: Attack ");
                push_str(&mut s, dec_string(self.enemy_damage).as_str());
            },
            Phase::Rewards => {
                push_str(&mut s, "## Rewards\nPlayer: ");
                push_str(&mut s, dec_string(self.player_hp).as_str());
                push_str(&mut s, "/");
                push_str(&mut s, dec_string(self.player_max_hp).as_str());
                push_str(&mut s, " HP, ");
                push_str(&mut s, dec_string(self.player_gold).as_str());
                push_str(&mut s, " gold\n\n[0] 25 gold\n[1] Fire Potion");
            },
        }
        proof {
            reveal_strlit("");
        }
        s
    }
}

// ---------------------------------------------------------------------------
// Tools and messages
// ---------------------------------------------------------------------------

pub const CARD_ADDED: &'static str = r#"{"status":"ok","message":"Card added to deck."}"#;

pub const CARD_SKIPPED: &'static str = r#"{"status":"ok","message":"Card reward skipped."}"#;

pub const NO_POTIONS: &'static str = r#"{"status":"error","error":"No potions available in mock."}"#;

pub const NOT_IN_MENU: &'static str = r#"{"status":"error","error":"Not in menu state."}"#;

pub const UNKNOWN_TOOL_HEAD: &'static str = r#"{"status":"error","error":"tool '"#;

pub const UNKNOWN_TOOL_TAIL: &'static str = r#"' not implemented in mock"}"#;

/// A call of tool `name` with `args`: the reply text, whether it is an
/// error, and the next state.
pub open spec fn tool_step(m: MockModel, name: Seq<char>, args: Json) -> (Seq<char>, bool, MockModel) {
    if name == "get_game_state"@ {
        let format = match as_str(field(args, "format"@)) {
            Some(f) => f,
            None => "markdown"@,
        };
        if format == "json"@ {
            (json_render_pretty(state_json(m)), false, m)
        } else {
            (state_markdown(m), false, m)
        }
    } else if name == "combat_play_card"@ {
        play_card_step(m, args)
    } else if name == "combat_end_turn"@ {
        end_turn_step(m)
    } else if name == "map_choose_node"@ {
        choose_node_step(m, args)
    } else if name == "rewards_claim"@ {
        claim_step(m, args)
    } else if name == "proceed_to_map"@ {
        proceed_step(m)
    } else if name == "rewards_pick_card"@ {
        (CARD_ADDED@, false, m)
    } else if name == "rewards_skip_card"@ {
        (CARD_SKIPPED@, false, m)
    } else if name == "use_potion"@ || name == "discard_potion"@ {
        (NO_POTIONS@, true, m)
    } else if name == "menu_select"@ {
        (NOT_IN_MENU@, true, m)
    } else {
        (UNKNOWN_TOOL_HEAD@ + name + UNKNOWN_TOOL_TAIL@, true, m)
    }
}

pub open spec fn no_props() -> Json {
    Json::Object(Seq::empty(), Seq::empty())
}

pub open spec fn typed(t: Seq<char>) -> Json {
    obj1("type"@, Json::Str(t))
}

/// An input schema with its properties and, when given, its one required property.
pub open spec fn input_schema(props: Json, required: Option<Seq<char>>) -> Json {
    match required {
        Some(k) => obj3(
            "type"@,
            Json::Str("object"@),
            "properties"@,
            props,
            "required"@,
            Json::Array(seq![Json::Str(k)]),
        ),
        None => obj2("type"@, Json::Str("object"@), "properties"@, props),
    }
}

pub open spec fn mock_tool(name: Seq<char>, desc: Seq<char>, schema: Json) -> Json {
    obj3("name"@, Json::Str(name), "description"@, Json::Str(desc), "inputSchema"@, schema)
}

/// The tools the mock lists.
pub open spec fn mock_tools() -> Seq<Json> {
    seq![
        mock_tool(
            "get_game_state"@,
            "Get the current Slay the Spire 2 game state."@,
            input_schema(
                obj1("format"@, obj2("type"@, Json::Str("string"@), "default"@, Json::Str("markdown"@))),
                None,
            ),
        ),
        mock_tool(
            "combat_play_card"@,
            "Play a card from hand."@,
            input_schema(
                obj2("card_index"@, typed("integer"@), "target"@, typed("string"@)),
                Some("card_index"@),
            ),
        ),
        mock_tool("combat_end_turn"@, "End the current turn."@, input_schema(no_props(), None)),
        mock_tool(
            "map_choose_node"@,
            "Choose a map node to travel to."@,
            input_schema(obj1("node_index"@, typed("integer"@)), Some("node_index"@)),
        ),
        mock_tool(
            "rewards_claim"@,
            "Claim a reward."@,
            input_schema(obj1("reward_index"@, typed("integer"@)), Some("reward_index"@)),
        ),
        mock_tool("proceed_to_map"@, "Proceed to map."@, input_schema(no_props(), None)),
        mock_tool(
            "rewards_pick_card"@,
            "Pick a card reward."@,
            input_schema(obj1("card_index"@, typed("integer"@)), Some("card_index"@)),
        ),
        mock_tool("rewards_skip_card"@, "Skip card reward."@, input_schema(no_props(), None)),
        mock_tool(
            "use_potion"@,
            "Use a potion."@,
            input_schema(obj2("slot"@, typed("integer"@), "target"@, typed("string"@)), Some("slot"@)),
        ),
        mock_tool(
            "discard_potion"@,
            "Discard a potion."@,
            input_schema(obj1("slot"@, typed("integer"@)), Some("slot"@)),
        ),
        mock_tool(
            "menu_select"@,
            "Select a menu option."@,
            input_schema(obj2("option"@, typed("string"@), "seed"@, typed("string"@)), Some("option"@)),
        ),
    ]
}

fn typed_value(t: &str) -> (r: JsonValue)
    ensures
        r@ == typed(t@),
{
    mk_obj1("type", jstring(t))
}

fn no_props_value() -> (r: JsonValue)
    ensures
        r@ == no_props(),
{
    let ms = new_members();
    object_of(ms)
}

fn schema_value(props: JsonValue, required: Option<&str>) -> (r: JsonValue)
    ensures
        r@ == input_schema(
            props@,
            match required {
                Some(k) => Some(k@),
                None => None,
            },
        ),
{
    match required {
        Some(k) => {
            let mut req = new_items();
            push_item(&mut req, jstring(k));
            mk_obj3("type", jstring("object"), "properties", props, "required", array_of(req))
        },
        None => mk_obj2("type", jstring("object"), "properties", props),
    }
}

fn tool_value(name: &str, desc: &str, schema: JsonValue) -> (r: JsonValue)
    ensures
        r@ == mock_tool(name@, desc@, schema@),
{
    mk_obj3("name", jstring(name), "description", jstring(desc), "inputSchema", schema)
}

/// The tools the mock lists.
pub fn tool_list() -> (r: Vec<JsonValue>)
    ensures
        item_views(r@) == mock_tools(),
{
    let mut t = new_items();
    push_item(
        &mut t,
        tool_value(
            "get_game_state",
            "Get the current Slay the Spire 2 game state.",
            schema_value(
                mk_obj1("format", mk_obj2("type", jstring("string"), "default", jstring("markdown"))),
                None,
            ),
        ),
    );
    push_item(
        &mut t,
        tool_value(
            "combat_play_card",
            "Play a card from hand.",
            schema_value(
                mk_obj2("card_index", typed_value("integer"), "target", typed_value("string")),
                Some("card_index"),
            ),
        ),
    );
    push_item(&mut t, tool_value("combat_end_turn", "End the current turn.", schema_value(no_props_value(), None)));
    push_item(
        &mut t,
        tool_value(
            "map_choose_node",
            "Choose a map node to travel to.",
            schema_value(mk_obj1("node_index", typed_value("integer")), Some("node_index")),
        ),
    );
    push_item(
        &mut t,
        tool_value(
            "rewards_claim",
            "Claim a reward.",
            schema_value(mk_obj1("reward_index", typed_value("integer")), Some("reward_index")),
        ),
    );
    push_item(&mut t, tool_value("proceed_to_map", "Proceed to map.", schema_value(no_props_value(), None)));
    push_item(
        &mut t,
        tool_value(
            "rewards_pick_card",
            "Pick a card reward.",
            schema_value(mk_obj1("card_index", typed_value("integer")), Some("card_index")),
        ),
    );
    push_item(&mut t, tool_value("rewards_skip_card", "Skip card reward.", schema_value(no_props_value(), None)));
    push_item(
        &mut t,
        tool_value(
            "use_potion",
            "Use a potion.",
            schema_value(mk_obj2("slot", typed_value("integer"), "target", typed_value("string")), Some("slot")),
        ),
    );
    push_item(
        &mut t,
        tool_value(
            "discard_potion",
            "Discard a potion.",
            schema_value(mk_obj1("slot", typed_value("integer")), Some("slot")),
        ),
    );
    push_item(
        &mut t,
        tool_value(
            "menu_select",
            "Select a menu option.",
            schema_value(mk_obj2("option", typed_value("string"), "seed", typed_value("string")), Some("option")),
        ),
    );
    assert(item_views(t@) =~= mock_tools());
    t
}

/// The result of a tool call: its text and whether it is an error.
pub open spec fn call_result_json(text: Seq<char>, is_error: bool) -> Json {
    obj2(
        "content"@,
        Json::Array(seq![obj2("type"@, Json::Str("text"@), "text"@, Json::Str(text))]),
        "isError"@,
        Json::Bool(is_error),
    )
}

/// The server's handshake result.
pub open spec fn mock_info_json() -> Json {
    obj3(
        "protocolVersion"@,
        Json::Str("2024-11-05"@),
        "capabilities"@,
        obj1("tools"@, no_props()),
        "serverInfo"@,
        obj2("name"@, Json::Str("sts2-mock"@), "version"@, Json::Str("0.1.0"@)),
    )
}

pub open spec fn str_or_empty(v: Json) -> Seq<char> {
    match as_str(v) {
        Some(s) => s,
        None => Seq::empty(),
    }
}

/// The answer to request `id` with a result.
pub open spec fn ok_json(id: Json, result: Json) -> Json {
    obj3("jsonrpc"@, Json::Str("2.0"@), "id"@, id, "result"@, result)
}

/// The answer to one JSON-RPC message (`None` for a notification or a
/// message without a string method) and the next state.
pub open spec fn mock_reply(m: MockModel, msg: Json) -> (Option<Json>, MockModel) {
    match get(msg, "id"@) {
        None => (None, m),
        Some(id) => match get(msg, "method"@) {
            None => (None, m),
            Some(mv) => match as_str(mv) {
                None => (None, m),
                Some(method) => {
                    if method == "initialize"@ {
                        (Some(ok_json(id, mock_info_json())), m)
                    } else if method == "tools/list"@ {
                        (Some(ok_json(id, obj1("tools"@, Json::Array(mock_tools())))), m)
                    } else if method == "tools/call"@ {
                        let params = field(msg, "params"@);
                        let step = tool_step(m, str_or_empty(field(params, "name"@)), field(params, "arguments"@));
                        (Some(ok_json(id, call_result_json(step.0, step.1))), step.2)
                    } else {
                        (
                            Some(
                                obj3(
                                    "jsonrpc"@,
                                    Json::Str("2.0"@),
                                    "id"@,
                                    id,
                                    "error"@,
                                    obj2(
                                        "code"@,
                                        Json::Int(-32601),
                                        "message"@,
                                        Json::Str("method not found: "@ + method),
                                    ),
                                ),
                            ),
                            m,
                        )
                    }
                },
            },
        },
    }
}

pub open spec fn opt_view(r: Option<JsonValue>) -> Option<Json> {
    match r {
        Some(v) => Some(v@),
        None => None,
    }
}

/// A tool call that answers with an error leaves the game as it was.
pub proof fn lemma_error_leaves_state(m: MockModel, name: Seq<char>, args: Json)
    ensures
        tool_step(m, name, args).1 ==> tool_step(m, name, args).2 == m,
{
}

/// Every tool call keeps the game's invariant.
pub proof fn lemma_tool_keeps_wf(m: MockModel, name: Seq<char>, args: Json)
    requires
        model_wf(m),
    ensures
        model_wf(tool_step(m, name, args).2),
{
    if name == "combat_play_card"@ {
        match as_u64(field(args, "card_index"@)) {
            Some(i) => if m.phase == Phase::Combat && i < m.hand.len() {
                assert(m.hand.remove(i as int).len() == m.hand.len() - 1);
            },
            None => {},
        }
    }
}

impl MockGame {
    /// Runs tool `name` with `args`; returns the reply text and whether it is an error.
    pub fn call_tool(&mut self, name: &str, args: &JsonValue) -> (r: (String, bool))
        requires
            old(self).wf(),
            in_limits(old(self)@),
        ensures
            final(self).wf(),
            (r.0@, r.1, final(self)@) == tool_step(old(self)@, name@, args@),
    {
        if str_eq(name, "get_game_state") {
            let format = match opt_as_str(field_ref(Some(args), "format")) {
                Some(f) => f,
                None => "markdown",
            };
            if str_eq(format, "json") {
                let v = self.state_json();
                (render_json_pretty(&v), false)
            } else {
                (self.state_markdown(), false)
            }
        } else if str_eq(name, "combat_play_card") {
            self.combat_play_card(args)
        } else if str_eq(name, "combat_end_turn") {
            self.combat_end_turn()
        } else if str_eq(name, "map_choose_node") {
            self.map_choose_node(args)
        } else if str_eq(name, "rewards_claim") {
            self.rewards_claim(args)
        } else if str_eq(name, "proceed_to_map") {
            self.proceed_to_map()
        } else if str_eq(name, "rewards_pick_card") {
            (copy_str(CARD_ADDED), false)
        } else if str_eq(name, "rewards_skip_card") {
            (copy_str(CARD_SKIPPED), false)
        } else if str_eq(name, "use_potion") || str_eq(name, "discard_potion") {
            (copy_str(NO_POTIONS), true)
        } else if str_eq(name, "menu_select") {
            (copy_str(NOT_IN_MENU), true)
        } else {
            let mut t = copy_str(UNKNOWN_TOOL_HEAD);
            push_str(&mut t, name);
            push_str(&mut t, UNKNOWN_TOOL_TAIL);
            (t, true)
        }
    }

    /// Answers one JSON-RPC message; `None` when no answer is due.
    pub fn handle_message(&mut self, msg: &JsonValue) -> (r: Option<JsonValue>)
        requires
            old(self).wf(),
            in_limits(old(self)@),
        ensures
            final(self).wf(),
            (opt_view(r), final(self)@) == mock_reply(old(self)@, msg@),
    {
        let id = match msg.get("id") {
            Some(v) => v.copy(),
            None => return None,
        };
        let method = match msg.get("method") {
            Some(v) => match v.as_str() {
                Some(s) => s,
                None => return None,
            },
            None => return None,
        };
        let ghost m0 = self@;
        assert(get(msg@, "id"@) == Some(id@));
        assert(get(msg@, "method"@) is Some && as_str(get(msg@, "method"@)->0) == Some(method@));
        let result = if str_eq(method, "initialize") {
            mk_obj3(
                "protocolVersion",
                jstring("2024-11-05"),
                "capabilities",
                mk_obj1("tools", no_props_value()),
                "serverInfo",
                mk_obj2("name", jstring("sts2-mock"), "version", jstring("0.1.0")),
            )
        } else if str_eq(method, "tools/list") {
            mk_obj1("tools", array_of(tool_list()))
        } else if str_eq(method, "tools/call") {
            let params = field_ref(Some(msg), "params");
            let name = match opt_as_str(field_ref(params, "name")) {
                Some(n) => n,
                None => "",
            };
            let null = JsonValue::Null;
            let args = match field_ref(params, "arguments") {
                Some(a) => a,
                None => &null,
            };
            proof {
                reveal_strlit("");
            }
            assert(name@ == str_or_empty(field(field(msg@, "params"@), "name"@)));
            assert(args@ == field(field(msg@, "params"@), "arguments"@));
            let (text, is_error) = self.call_tool(name, args);
            let mut content = new_items();
            push_item(&mut content, mk_obj2("type", jstring("text"), "text", JsonValue::Str(text)));
            mk_obj2("content", array_of(content), "isError", JsonValue::Bool(is_error))
        } else {
            let mut m = copy_str("method not found: ");
            push_str(&mut m, method);
            let err = mk_obj2("code", JsonValue::Int(-32601), "message", JsonValue::Str(m));
            return Some(mk_obj3("jsonrpc", jstring("2.0"), "id", id, "error", err));
        };
        assert(mock_reply(m0, msg@).0 == Some(ok_json(id@, result@)));
        assert(mock_reply(m0, msg@).1 == self@);
        Some(mk_obj3("jsonrpc", jstring("2.0"), "id", id, "result", result))
    }
}

impl MockGame {
    /// Answers one line of the stdio transport: a line that is not JSON is
    /// skipped; otherwise the answer, if one is due, comes back framed as a
    /// line.
    pub fn handle_line(&mut self, line: &str) -> (r: Option<String>)
        requires
            old(self).wf(),
            in_limits(old(self)@),
        ensures
            final(self).wf(),
            match json_parse(line@) {
                None => r is None && final(self)@ == old(self)@,
                Some(msg) => {
                    &&& final(self)@ == mock_reply(old(self)@, msg).1
                    &&& match mock_reply(old(self)@, msg).0 {
                        Some(v) => r matches Some(t) && t@ == json_render(v) + "\n"@,
                        None => r is None,
                    }
                },
            },
    {
        match parse_json(line) {
            None => None,
            Some(msg) => match self.handle_message(&msg) {
                Some(v) => Some(crate::mcp::frame_message(&v)),
                None => None,
            },
        }
    }
}

} // verus!
