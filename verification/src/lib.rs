//! The rules of BallPit Arena: a small platform fighter in which round
//! characters change shape to attack, gain Hype and Combo, break the bricks
//! of the arena and are knocked out when they leave the stage.
//!
//! Time is kept in whole units: activity timers count fixed physics steps
//! (`TICKS_PER_SECOND` of them a second) and status and sound timers count
//! nanoseconds of frame time.

pub mod audio;
pub mod game;

use vstd::prelude::*;

verus! {

/// The two screens the game moves between.
#[derive(Clone, Copy, Debug, PartialEq, Eq, Hash, Structural)]
pub enum AppState {
    Game,
    GameOver,
}

} // verus!
