//! Pluggable decision engines: an engine reads the game state and proposes
//! actions, highest priority first; the model explains them in words.
use vstd::prelude::*;

use crate::model::{ActionRecommendation, GameState};

verus! {

/// A decision engine.  Engines are chosen by configuration; any type can be one.
pub trait DecisionEngine {
    /// The actions proposed for a state, highest priority first.
    fn decide(&self, state: &GameState) -> Vec<ActionRecommendation>;
}

/// The rule-based engine.  Its rule book is still empty: it proposes nothing.
pub struct RuleBasedEngine;

impl DecisionEngine for RuleBasedEngine {
    fn decide(&self, state: &GameState) -> (r: Vec<ActionRecommendation>)
        ensures
            r@.len() == 0,
    {
        Vec::new()
    }
}

} // verus!
