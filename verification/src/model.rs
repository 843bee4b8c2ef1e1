//! The game-state model: the screen the game is on, the player, the battle and
//! the per-screen payloads that the agent reads; the actions it can take; and
//! the plain parts of its configuration.
use vstd::prelude::*;

use crate::json::JsonValue;
use crate::text::copy_str;

verus! {

/// The screen the game is on.
#[derive(Debug, Clone, Copy, PartialEq, Eq, Structural)]
pub enum StateType {
    Menu,
    Monster,
    Elite,
    Boss,
    HandSelect,
    Rewards,
    CardReward,
    MapScreen,
    Event,
    RestSite,
    Shop,
    FakeMerchant,
    Treasure,
    CardSelect,
    BundleSelect,
    RelicSelect,
    CrystalSphere,
    GameOver,
    Overlay,
    /// A screen the agent does not know.
    Unknown,
}

impl Default for StateType {
    fn default() -> (r: Self)
        ensures
            r == StateType::Menu,
    {
        StateType::Menu
    }
}

/// The name a state type is written with (its variant name).
pub open spec fn state_type_name(t: StateType) -> Seq<char> {
    match t {
        StateType::Menu => "Menu"@,
        StateType::Monster => "Monster"@,
        StateType::Elite => "Elite"@,
        StateType::Boss => "Boss"@,
        StateType::HandSelect => "HandSelect"@,
        StateType::Rewards => "Rewards"@,
        StateType::CardReward => "CardReward"@,
        StateType::MapScreen => "Map"@,
        StateType::Event => "Event"@,
        StateType::RestSite => "RestSite"@,
        StateType::Shop => "Shop"@,
        StateType::FakeMerchant => "FakeMerchant"@,
        StateType::Treasure => "Treasure"@,
        StateType::CardSelect => "CardSelect"@,
        StateType::BundleSelect => "BundleSelect"@,
        StateType::RelicSelect => "RelicSelect"@,
        StateType::CrystalSphere => "CrystalSphere"@,
        StateType::GameOver => "GameOver"@,
        StateType::Overlay => "Overlay"@,
        StateType::Unknown => "Unknown"@,
    }
}

impl StateType {
    /// The variant name of the state type.
    pub fn name(&self) -> (r: String)
        ensures
            r@ == state_type_name(*self),
    {
        match self {
            StateType::Menu => copy_str("Menu"),
            StateType::Monster => copy_str("Monster"),
            StateType::Elite => copy_str("Elite"),
            StateType::Boss => copy_str("Boss"),
            StateType::HandSelect => copy_str("HandSelect"),
            StateType::Rewards => copy_str("Rewards"),
            StateType::CardReward => copy_str("CardReward"),
            StateType::MapScreen => copy_str("Map"),
            StateType::Event => copy_str("Event"),
            StateType::RestSite => copy_str("RestSite"),
            StateType::Shop => copy_str("Shop"),
            StateType::FakeMerchant => copy_str("FakeMerchant"),
            StateType::Treasure => copy_str("Treasure"),
            StateType::CardSelect => copy_str("CardSelect"),
            StateType::BundleSelect => copy_str("BundleSelect"),
            StateType::RelicSelect => copy_str("RelicSelect"),
            StateType::CrystalSphere => copy_str("CrystalSphere"),
            StateType::GameOver => copy_str("GameOver"),
            StateType::Overlay => copy_str("Overlay"),
            StateType::Unknown => copy_str("Unknown"),
        }
    }

    /// A fight: a monster, elite or boss room.
    pub fn is_combat(&self) -> (r: bool)
        ensures
            r == (*self == StateType::Monster || *self == StateType::Elite || *self
                == StateType::Boss),
    {
        match self {
            StateType::Monster | StateType::Elite | StateType::Boss => true,
            _ => false,
        }
    }
}

/// Whose turn it is in a battle.
#[derive(Debug, Clone, Copy, PartialEq, Eq, Structural)]
pub enum Turn {
    Player,
    Enemy,
    Unknown,
}

/// Act, floor and ascension of the run.
#[derive(Debug, Clone, Copy, PartialEq, Eq, Structural)]
pub struct RunInfo {
    pub act: u32,
    pub floor: u32,
    pub ascension: u32,
}

/// A card in hand or on a selection screen.
#[derive(Debug, Clone)]
pub struct Card {
    pub index: Option<u32>,
    pub id: String,
    pub name: String,
    /// Attack, Skill, Power, Status or Curse.
    pub kind: String,
    /// The energy cost as the game writes it (`X` for X-cost cards).
    pub cost: String,
    pub description: Option<String>,
    pub target_type: Option<String>,
    pub can_play: Option<bool>,
}

/// A card in the draw or discard pile.
#[derive(Debug, Clone)]
pub struct PileCard {
    pub name: String,
    pub cost: String,
    pub description: Option<String>,
}

#[derive(Debug, Clone)]
pub struct Relic {
    pub id: String,
    pub name: String,
    pub description: Option<String>,
    pub counter: Option<i64>,
}

#[derive(Debug, Clone)]
pub struct Potion {
    pub id: String,
    pub name: String,
    pub description: Option<String>,
    pub slot: u32,
    pub can_use_in_combat: Option<bool>,
    pub target_type: Option<String>,
}

/// What an enemy means to do.
#[derive(Debug, Clone)]
pub struct Intent {
    /// Attack, Defend, Buff, Debuff, Sleep, ...
    pub kind: String,
    pub label: Option<String>,
    pub title: Option<String>,
    pub description: Option<String>,
}

#[derive(Debug, Clone)]
pub struct Enemy {
    pub entity_id: String,
    pub combat_id: Option<i64>,
    pub name: String,
    pub hp: i32,
    pub max_hp: i32,
    pub block: i32,
    pub intents: Vec<Intent>,
}

#[derive(Debug, Clone)]
pub struct Battle {
    pub round: Option<u32>,
    pub turn: Option<Turn>,
    pub is_play_phase: Option<bool>,
    pub enemies: Vec<Enemy>,
}

#[derive(Debug, Clone)]
pub struct Player {
    pub character: String,
    pub hp: i32,
    pub max_hp: i32,
    pub block: i32,
    pub gold: i32,
    pub energy: Option<i32>,
    pub max_energy: Option<i32>,
    pub hand: Option<Vec<Card>>,
    pub draw_pile: Option<Vec<PileCard>>,
    pub discard_pile: Option<Vec<PileCard>>,
    pub relics: Vec<Relic>,
    pub potions: Vec<Potion>,
    pub max_potion_slots: u32,
}

/// A node the map offers next.
#[derive(Debug, Clone)]
pub struct MapNextOption {
    pub index: Option<u32>,
    pub col: Option<i32>,
    pub row: Option<i32>,
    pub kind: Option<String>,
}

#[derive(Debug, Clone)]
pub struct MapState {
    pub next_options: Vec<MapNextOption>,
}

#[derive(Debug, Clone)]
pub struct RewardItem {
    pub index: Option<u32>,
    /// gold, potion, relic, card, special_card or card_removal.
    pub kind: Option<String>,
    pub description: Option<String>,
    pub gold_amount: Option<i64>,
}

#[derive(Debug, Clone)]
pub struct Rewards {
    pub items: Vec<RewardItem>,
    pub can_proceed: Option<bool>,
}

#[derive(Debug, Clone)]
pub struct CardReward {
    pub cards: Vec<Card>,
    pub can_skip: Option<bool>,
}

/// A card selection overlay (transform, upgrade, remove, choose).
#[derive(Debug, Clone)]
pub struct CardSelect {
    pub screen_type: Option<String>,
    pub prompt: Option<String>,
    pub cards: Vec<Card>,
    pub preview_showing: Option<bool>,
    pub can_confirm: Option<bool>,
    pub can_cancel: Option<bool>,
    pub can_skip: Option<bool>,
}

#[derive(Debug, Clone)]
pub struct TreasureRelic {
    pub index: Option<u32>,
    pub id: Option<String>,
    pub name: Option<String>,
}

#[derive(Debug, Clone)]
pub struct Treasure {
    pub relics: Vec<TreasureRelic>,
    pub can_proceed: Option<bool>,
    /// Multiplayer: relics are being bid for.
    pub is_bidding_phase: Option<bool>,
}

#[derive(Debug, Clone)]
pub struct EventState {
    pub event_id: Option<String>,
    pub event_name: Option<String>,
    pub in_dialogue: Option<bool>,
}

/// A power (buff or debuff) on a creature.
#[derive(Debug, Clone)]
pub struct Power {
    pub id: String,
    pub name: String,
    pub amount: Option<i64>,
    /// Buff or Debuff.
    pub power_type: Option<String>,
    pub description: Option<String>,
    pub keywords: Vec<Keyword>,
}

/// A keyword explained on a card, relic or power.
#[derive(Debug, Clone)]
pub struct Keyword {
    pub name: String,
    pub description: Option<String>,
}

/// A channelled orb.
#[derive(Debug, Clone)]
pub struct Orb {
    pub id: String,
    pub name: String,
    pub description: Option<String>,
    pub passive_val: Option<i64>,
    pub evoke_val: Option<i64>,
    pub keywords: Vec<Keyword>,
}

/// A companion creature.
#[derive(Debug, Clone)]
pub struct Pet {
    pub id: String,
    pub name: String,
    pub alive: Option<bool>,
    pub hp: i32,
    pub max_hp: i32,
    pub block: i32,
    pub status: Vec<Power>,
}

/// Choosing cards from the hand during a fight.
#[derive(Debug)]
pub struct HandSelect {
    pub mode: Option<String>,
    pub prompt: Option<String>,
    pub cards: Vec<Card>,
    pub selected_cards: Vec<JsonValue>,
    pub can_confirm: Option<bool>,
}

/// A position on the map.
#[derive(Debug, Clone)]
pub struct MapCoord {
    pub col: Option<i32>,
    pub row: Option<i32>,
    pub kind: Option<String>,
}

/// A node of the whole map, with the coordinates of its children.
#[derive(Debug, Clone)]
pub struct MapDagNode {
    pub col: Option<i32>,
    pub row: Option<i32>,
    pub kind: Option<String>,
    pub children: Vec<Vec<i32>>,
}

/// The boss at the end of an act.
#[derive(Debug, Clone)]
pub struct BossRef {
    pub col: Option<i32>,
    pub row: Option<i32>,
    pub id: Option<String>,
    pub name: Option<String>,
}

/// An option of an event.
#[derive(Debug, Clone)]
pub struct EventOption {
    pub index: Option<u32>,
    pub title: Option<String>,
    pub description: Option<String>,
    pub is_locked: Option<bool>,
    pub is_proceed: Option<bool>,
    pub was_chosen: Option<bool>,
    pub relic_name: Option<String>,
    pub relic_description: Option<String>,
    pub keywords: Vec<Keyword>,
}

/// A rest site and its options.
#[derive(Debug, Clone)]
pub struct RestSite {
    pub options: Vec<RestOption>,
    pub can_proceed: Option<bool>,
}

#[derive(Debug, Clone)]
pub struct RestOption {
    pub index: Option<u32>,
    pub id: Option<String>,
    pub name: Option<String>,
    pub description: Option<String>,
    pub is_enabled: Option<bool>,
}

/// A shop and its stock.
#[derive(Debug, Clone)]
pub struct Shop {
    pub items: Vec<ShopItem>,
    pub can_proceed: Option<bool>,
    pub error: Option<String>,
}

/// An item for sale: a card, a relic, a potion or card removal.
#[derive(Debug, Clone)]
pub struct ShopItem {
    pub index: Option<u32>,
    pub category: Option<String>,
    pub price: Option<i64>,
    /// The fake merchant names the price `cost`.
    pub cost: Option<i64>,
    pub is_stocked: Option<bool>,
    pub can_afford: Option<bool>,
    pub on_sale: Option<bool>,
    pub card_id: Option<String>,
    pub card_name: Option<String>,
    pub card_type: Option<String>,
    pub card_cost: Option<String>,
    pub card_star_cost: Option<String>,
    pub card_rarity: Option<String>,
    pub card_description: Option<String>,
    pub relic_id: Option<String>,
    pub relic_name: Option<String>,
    pub relic_description: Option<String>,
    pub potion_id: Option<String>,
    pub potion_name: Option<String>,
    pub potion_description: Option<String>,
    pub keywords: Vec<Keyword>,
}

/// The merchant event that may turn into a fight.
#[derive(Debug, Clone)]
pub struct FakeMerchant {
    pub event_id: Option<String>,
    pub event_name: Option<String>,
    pub started_fight: Option<bool>,
    pub shop: Option<Shop>,
}

/// Choosing one bundle of cards.
#[derive(Debug, Clone)]
pub struct BundleSelect {
    pub screen_type: Option<String>,
    pub prompt: Option<String>,
    pub bundles: Vec<Bundle>,
    pub preview_showing: Option<bool>,
    pub preview_cards: Vec<Card>,
    pub can_cancel: Option<bool>,
    pub can_confirm: Option<bool>,
}

#[derive(Debug, Clone)]
pub struct Bundle {
    pub index: Option<u32>,
    pub card_count: Option<u32>,
    pub cards: Vec<Card>,
}

/// Choosing one relic.
#[derive(Debug, Clone)]
pub struct RelicSelect {
    pub prompt: Option<String>,
    pub relics: Vec<RelicChoice>,
    pub can_skip: Option<bool>,
}

#[derive(Debug, Clone)]
pub struct RelicChoice {
    pub index: Option<u32>,
    pub id: Option<String>,
    pub name: Option<String>,
    pub description: Option<String>,
    pub rarity: Option<String>,
    pub keywords: Vec<Keyword>,
}

/// The crystal sphere minigame.
#[derive(Debug)]
pub struct CrystalSphere {
    pub instructions_title: Option<String>,
    pub instructions_description: Option<String>,
    pub grid_width: Option<i32>,
    pub grid_height: Option<i32>,
    pub cells: Vec<JsonValue>,
    pub clickable_cells: Vec<JsonValue>,
    pub revealed_items: Vec<JsonValue>,
    pub tool: Option<String>,
    pub can_use_big_tool: Option<bool>,
    pub can_use_small_tool: Option<bool>,
    pub divinations_left_text: Option<String>,
    pub can_proceed: Option<bool>,
}

/// The end of a run.
#[derive(Debug)]
pub struct GameOver {
    pub message: Option<String>,
    pub options: Vec<JsonValue>,
}

/// A screen shown over the game.
#[derive(Debug, Clone)]
pub struct Overlay {
    pub screen_type: Option<String>,
    pub message: Option<String>,
}

/// What the agent reads of the game state.
#[derive(Debug, Clone)]
pub struct GameState {
    pub state_type: StateType,
    pub run: Option<RunInfo>,
    pub player: Option<Player>,
    pub battle: Option<Battle>,
    pub map: Option<MapState>,
    pub rewards: Option<Rewards>,
    pub card_reward: Option<CardReward>,
    pub card_select: Option<CardSelect>,
    pub treasure: Option<Treasure>,
    pub event: Option<EventState>,
    pub menu_screen: Option<String>,
}

impl GameState {
    /// The state of a game not yet read: on the menu, with nothing known.
    pub open spec fn empty_spec() -> GameState {
        GameState {
            state_type: StateType::Menu,
            run: None,
            player: None,
            battle: None,
            map: None,
            rewards: None,
            card_reward: None,
            card_select: None,
            treasure: None,
            event: None,
            menu_screen: None,
        }
    }

    /// The state of a game not yet read.
    pub fn empty() -> (r: GameState)
        ensures
            r == GameState::empty_spec(),
    {
        GameState {
            state_type: StateType::Menu,
            run: None,
            player: None,
            battle: None,
            map: None,
            rewards: None,
            card_reward: None,
            card_select: None,
            treasure: None,
            event: None,
            menu_screen: None,
        }
    }
}

#[derive(Debug, Clone, PartialEq, Eq)]
pub enum Action {
    PlayCard { card_index: u32, target: Option<String> },
    EndTurn,
    UsePotion { slot: u32, target: Option<String> },
    DiscardPotion { slot: u32 },
    CombatSelectCard { card_index: u32 },
    CombatConfirmSelection,
    ClaimReward { index: u32 },
    SelectCardReward { card_index: u32 },
    SkipCardReward,
    Proceed,
    ChooseMapNode { index: u32 },
    ChooseEventOption { index: u32 },
    AdvanceDialogue,
    ChooseRestOption { index: u32 },
    ShopPurchase { index: u32 },
    SelectCard { index: u32 },
    ConfirmSelection,
    CancelSelection,
    SelectBundle { index: u32 },
    ConfirmBundleSelection,
    CancelBundleSelection,
    SelectRelic { index: u32 },
    SkipRelicSelection,
    ClaimTreasureRelic { index: u32 },
    CrystalSphereSetTool { tool: String },
    CrystalSphereClickCell { x: i32, y: i32 },
    CrystalSphereProceed,
    MenuSelect { option: String, seed: Option<String> },
}

/// An action proposed by a decision engine, with a priority and a reason.
#[derive(Debug, Clone)]
pub struct ActionRecommendation {
    pub action: Action,
    /// Higher goes first.
    pub priority: i32,
    /// A hint that the model turns into an explanation.
    pub reason: String,
}

/// How to start the game server process.
#[derive(Debug, Clone)]
pub struct McpConfig {
    pub command: String,
    pub args: Vec<String>,
}

#[derive(Debug, Clone)]
pub struct DecisionConfig {
    pub engine: String,
}

#[derive(Debug, Clone)]
pub struct StorageConfig {
    pub sessions_dir: String,
    pub logs_dir: String,
    pub game_knowledge_dir: String,
}

/// The decision engine used when the configuration names none.
pub fn default_engine() -> (r: String)
    ensures
        r@ == "rule_based"@,
{
    copy_str("rule_based")
}

/// The session directory used when the configuration names none.
pub fn default_sessions_dir() -> (r: String)
    ensures
        r@ == "data/sessions"@,
{
    copy_str("data/sessions")
}

/// The log directory used when the configuration names none.
pub fn default_logs_dir() -> (r: String)
    ensures
        r@ == "data/logs"@,
{
    copy_str("data/logs")
}

/// The knowledge directory used when the configuration names none.
pub fn default_game_knowledge_dir() -> (r: String)
    ensures
        r@ == "game-knowledge"@,
{
    copy_str("game-knowledge")
}

impl DecisionConfig {
    pub fn new_default() -> (r: DecisionConfig)
        ensures
            r.engine@ == "rule_based"@,
    {
        DecisionConfig { engine: default_engine() }
    }
}

impl StorageConfig {
    pub fn new_default() -> (r: StorageConfig)
        ensures
            r.sessions_dir@ == "data/sessions"@,
            r.logs_dir@ == "data/logs"@,
            r.game_knowledge_dir@ == "game-knowledge"@,
    {
        StorageConfig {
            sessions_dir: default_sessions_dir(),
            logs_dir: default_logs_dir(),
            game_knowledge_dir: default_game_knowledge_dir(),
        }
    }
}

} // verus!
