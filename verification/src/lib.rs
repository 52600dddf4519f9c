//! Core simulation for a side-scrolling gem-collection game.
//!
//! The player auto-scrolls horizontally and is steered vertically; gems along
//! the track are collected by proximity, each collection raising the score and
//! lowering health; when health reaches zero the game latches into a terminal
//! game-over state.
//!
//! Positions are fixed-point integers: [`SCALE`] subunits per world unit, with
//! the simulation advancing at [`TICKS_PER_SECOND`] fixed ticks per second, so
//! each tick's displacement is an exact integer of subunits.

use vstd::prelude::*;

pub mod laws;
pub mod model;
pub mod setup;
pub mod world;

verus! {

/// The game's two-state machine: play begins in `Playing`; `GameOver` is
/// terminal — no system ever leaves it.
#[derive(Clone, Copy, Debug, PartialEq, Eq, Structural)]
pub enum GameState {
    Playing,
    GameOver,
}

/// Subunits per world unit.
pub const SCALE: i64 = 64;

/// Fixed simulation rate, in ticks per second.
pub const TICKS_PER_SECOND: i64 = 64;

/// Horizontal scroll displacement per tick, in subunits
/// (300 units/second at 64 ticks/second and 64 subunits/unit).
pub const HORIZONTAL_STEP: i64 = 300;

/// Vertical displacement per tick at full input intent, in subunits
/// (300 units/second).
pub const VERTICAL_STEP: i64 = 300;

/// Horizontal camera look-ahead, in subunits (200 units).
pub const LOOK_AHEAD: i64 = 12800;

/// Pickup distance threshold, in subunits (30 units).
pub const COLLECT_RADIUS: i64 = 1920;

/// Machine bound on coordinates, in subunits: coordinates are kept within
/// this so that squared distances fit in `i64`.
pub const COORD_LIMIT: i64 = 0x2000_0000;

/// Starting and maximum health.
pub const MAX_HEALTH: i32 = 3;

/// Number of gems laid out at setup.
pub const GEM_COUNT: usize = 100;

/// Horizontal spacing between consecutive gems, in subunits (300 units).
pub const GEM_SPACING: i64 = 19200;

/// Horizontal position of the first gem, in subunits (600 units).
pub const GEM_X_OFFSET: i64 = 38400;

/// Half-width of the vertical scatter band for gem placement, in subunits
/// (gem y is uniform in [-200, 200) units).
pub const GEM_SCATTER: i64 = 12800;

/// Vertical input intent for one tick: +1 for up alone, -1 for down alone,
/// 0 for neither or both (the two cancel).
pub open spec fn intent_of(up: bool, down: bool) -> int {
    (if up { 1int } else { 0int }) + (if down { -1int } else { 0int })
}

} // verus!
