//! The decisions of the plain-text autoplay loop: when a round stops the
//! game, what the status line of a round says, and the preview of a result.
use vstd::prelude::*;

use crate::app::{battle_summary, battle_summary_text};
use crate::model::{state_type_name, GameState, StateType};
use crate::text::{chars_of, copy_str, string_from_chars, take_up_to, take_up_to_vec};

verus! {

/// The one-line summary of a state for the autoplay log.
pub open spec fn play_summary(gs: GameState) -> Seq<char> {
    match gs.state_type {
        StateType::MapScreen => "地图"@,
        StateType::Monster | StateType::Elite | StateType::Boss => battle_summary(
            gs,
            " HP, "@,
            "敌人: "@,
        ),
        StateType::Rewards => "奖励"@,
        StateType::RestSite => "休息点"@,
        StateType::Shop | StateType::FakeMerchant => "商店"@,
        StateType::Event => "事件"@,
        StateType::Treasure => "宝箱"@,
        _ => state_type_name(gs.state_type),
    }
}

/// A one-line summary of the state for the autoplay log.
pub fn state_summary(gs: &GameState) -> (r: String)
    ensures
        r@ == play_summary(*gs),
{
    match gs.state_type {
        StateType::MapScreen => copy_str("地图"),
        StateType::Monster | StateType::Elite | StateType::Boss => battle_summary_text(
            gs,
            " HP, ",
            "敌人: ",
        ),
        StateType::Rewards => copy_str("奖励"),
        StateType::RestSite => copy_str("休息点"),
        StateType::Shop | StateType::FakeMerchant => copy_str("商店"),
        StateType::Event => copy_str("事件"),
        StateType::Treasure => copy_str("宝箱"),
        _ => gs.state_type.name(),
    }
}

/// What a round of the autoplay loop does with the state it read.
#[derive(Debug, Clone, Copy, PartialEq, Eq, Structural)]
pub enum PlayStep {
    /// The game is over: stop.
    GameOver,
    /// The state is unknown: stop.
    Unknown,
    /// The budget is spent: stop.
    OverBudget,
    /// Ask the model.
    Decide,
}

/// A finished or unknown game stops the loop, then a spent budget.
pub open spec fn play_step_of(t: StateType, over_budget: bool) -> PlayStep {
    if t == StateType::GameOver {
        PlayStep::GameOver
    } else if t == StateType::Unknown {
        PlayStep::Unknown
    } else if over_budget {
        PlayStep::OverBudget
    } else {
        PlayStep::Decide
    }
}

pub fn play_step(gs: &GameState, over_budget: bool) -> (r: PlayStep)
    ensures
        r == play_step_of(gs.state_type, over_budget),
{
    if gs.state_type == StateType::GameOver {
        PlayStep::GameOver
    } else if gs.state_type == StateType::Unknown {
        PlayStep::Unknown
    } else if over_budget {
        PlayStep::OverBudget
    } else {
        PlayStep::Decide
    }
}

/// Whether round `turn` (counted from 1) may be played within `max_turns`.
pub fn round_allowed(turn: u32, max_turns: u32) -> (r: bool)
    ensures
        r == (1 <= turn <= max_turns),
{
    1 <= turn && turn <= max_turns
}

/// The step of an answer to carry out next, after step `done` (counted from
/// 0) of `total` ran with `success`: the following one while the steps
/// succeed, none once one failed or all ran.
pub fn next_step(done: usize, success: bool, total: usize) -> (r: Option<usize>)
    ensures
        r == (if success && done + 1 < total {
            Some((done + 1) as usize)
        } else {
            None::<usize>
        }),
{
    if success && done < total && done + 1 < total {
        Some(done + 1)
    } else {
        None
    }
}

/// The first `n` characters of a result, as shown in the log.
pub fn preview(text: &str, n: usize) -> (r: String)
    ensures
        r@ == take_up_to(text@, n as nat),
{
    let v = chars_of(text);
    let t = take_up_to_vec(&v, n);
    string_from_chars(t.as_slice())
}

} // verus!
