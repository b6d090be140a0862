//! Which kind of player controls each side.

use vstd::prelude::*;

verus! {

/// A side is driven by human key presses or by the reactive policy.
#[derive(Clone, Copy, PartialEq, Eq, Structural, Debug)]
pub enum PlayerType {
    Human,
    Ai,
}

/// The chosen player kind for each side.
#[derive(Clone, Copy, PartialEq, Eq, Structural, Debug)]
pub struct AppConfig {
    pub player_l: PlayerType,
    pub player_r: PlayerType,
}

} // verus!
