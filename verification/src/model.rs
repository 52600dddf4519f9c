//! Mathematical model of the game world and its tick transition.
//!
//! The executable [`crate::world::World`] views to a [`WorldModel`]; every
//! transition of the simulation is specified here as a function on models, and
//! the executable systems are proved to implement exactly these functions.

use vstd::prelude::*;
use crate::{
    COORD_LIMIT, COLLECT_RADIUS, HORIZONTAL_STEP, VERTICAL_STEP, LOOK_AHEAD, GameState, intent_of,
};

verus! {

/// Model of one gem: its position in subunits and whether it is still live
/// (present in the world) or already collected.
#[verifier::ext_equal]
pub struct GemModel {
    pub x: int,
    pub y: int,
    pub alive: bool,
}

/// Model of the whole world state: player position, camera, health, score,
/// the gem track, and the game state machine.
#[verifier::ext_equal]
pub struct WorldModel {
    /// Player position, in subunits.
    pub px: int,
    pub py: int,
    /// Camera horizontal position, in subunits (vertical is not modeled:
    /// the camera only follows horizontally).
    pub cam_x: int,
    /// Current health; always within `0 ..= health_max`.
    pub health: int,
    /// Maximum health, a positive constant for the life of the world.
    pub health_max: int,
    /// Gems collected so far.
    pub score: int,
    /// All gems ever created, in creation order; collection only flips
    /// `alive` to false, so indices are stable.
    pub gems: Seq<GemModel>,
    pub state: GameState,
}

/// The gem with the same position, no longer live.
pub open spec fn collected_gem(g: GemModel) -> GemModel {
    GemModel { alive: false, ..g }
}

/// Number of live gems among the first `n`.
pub open spec fn live_upto(gems: Seq<GemModel>, n: int) -> int
    decreases n,
{
    if n <= 0 {
        0
    } else {
        live_upto(gems, n - 1) + if gems[n - 1].alive { 1int } else { 0int }
    }
}

/// A coordinate within the machine bound on the playfield.
pub open spec fn coord_ok(v: int) -> bool {
    -(COORD_LIMIT as int) <= v <= COORD_LIMIT as int
}

/// Clamp a coordinate to the machine bound on the playfield.
pub open spec fn clamp_coord(v: int) -> int {
    if v < -(COORD_LIMIT as int) {
        -(COORD_LIMIT as int)
    } else if v > COORD_LIMIT as int {
        COORD_LIMIT as int
    } else {
        v
    }
}

/// The pickup test: strict Euclidean proximity, compared on squared
/// distances so that it is exact integer arithmetic.
pub open spec fn in_radius(px: int, py: int, gx: int, gy: int) -> bool {
    (px - gx) * (px - gx) + (py - gy) * (py - gy)
        < (COLLECT_RADIUS as int) * (COLLECT_RADIUS as int)
}

impl WorldModel {
    /// Number of live gems in the world.
    pub open spec fn live_count(self) -> int {
        live_upto(self.gems, self.gems.len() as int)
    }

    /// Well-formedness: health within bounds, coordinates within the machine
    /// bound, and enough headroom in the score counter for every live gem.
    pub open spec fn wf(self) -> bool {
        &&& 0 <= self.health <= self.health_max
        &&& 0 < self.health_max <= i32::MAX as int
        &&& coord_ok(self.px)
        &&& coord_ok(self.py)
        &&& 0 <= self.score
        &&& self.score + self.live_count() <= usize::MAX as int
        &&& forall|i: int|
            0 <= i < self.gems.len() ==> coord_ok(#[trigger] self.gems[i].x)
                && coord_ok(self.gems[i].y)
    }

    /// Whether gem `i` is live and within collection radius of the player.
    pub open spec fn gem_collectible(self, i: int) -> bool {
        self.gems[i].alive && in_radius(self.px, self.py, self.gems[i].x, self.gems[i].y)
    }
}

/// Motion system: constant horizontal scroll plus input-scaled vertical
/// displacement, each coordinate held to the machine bound.
pub open spec fn motion_spec(w: WorldModel, up: bool, down: bool) -> WorldModel {
    WorldModel {
        px: clamp_coord(w.px + HORIZONTAL_STEP as int),
        py: clamp_coord(w.py + intent_of(up, down) * (VERTICAL_STEP as int)),
        ..w
    }
}

/// Camera follow system: the camera leads the player horizontally by the
/// look-ahead offset; nothing else changes.
pub open spec fn camera_spec(w: WorldModel) -> WorldModel {
    WorldModel { cam_x: w.px + LOOK_AHEAD as int, ..w }
}

/// Pickup of a single gem: if gem `i` is live and in radius, it is removed,
/// the score rises by one and health falls by one, clamped at zero.
/// A gem that is out of range or already collected changes nothing.
pub open spec fn pickup_one(w: WorldModel, i: int) -> WorldModel {
    if 0 <= i < w.gems.len() && w.gem_collectible(i) {
        WorldModel {
            gems: w.gems.update(i, collected_gem(w.gems[i])),
            score: w.score + 1,
            health: if w.health <= 0 { 0 } else { w.health - 1 },
            ..w
        }
    } else {
        w
    }
}

/// Pickup applied to the first `n` gems, in creation order.
pub open spec fn pickup_upto(w: WorldModel, n: int) -> WorldModel
    decreases n,
{
    if n <= 0 {
        w
    } else {
        pickup_one(pickup_upto(w, n - 1), n - 1)
    }
}

/// Pickup system: every gem is examined once, in creation order, against the
/// player position that the motion system just wrote.
pub open spec fn pickup_spec(w: WorldModel) -> WorldModel {
    pickup_upto(w, w.gems.len() as int)
}

/// Death check: a level-triggered latch; in Playing with health at zero the
/// state moves to GameOver, and GameOver is terminal.
pub open spec fn death_spec(w: WorldModel) -> WorldModel {
    if w.state == GameState::Playing && w.health <= 0 {
        WorldModel { state: GameState::GameOver, ..w }
    } else {
        w
    }
}

/// One fixed simulation tick: Motion, then Camera Follow, then Pickup, in
/// that order, gated on the Playing state. In GameOver nothing runs.
pub open spec fn tick_spec(w: WorldModel, up: bool, down: bool) -> WorldModel {
    if w.state == GameState::Playing {
        pickup_spec(camera_spec(motion_spec(w, up, down)))
    } else {
        w
    }
}

/// One full step: a simulation tick followed by the death check.
pub open spec fn step_spec(w: WorldModel, up: bool, down: bool) -> WorldModel {
    death_spec(tick_spec(w, up, down))
}

/// The world after a whole sequence of per-tick input signals.
pub open spec fn run_spec(w: WorldModel, inputs: Seq<(bool, bool)>) -> WorldModel
    decreases inputs.len(),
{
    if inputs.len() == 0 {
        w
    } else {
        step_spec(run_spec(w, inputs.drop_last()), inputs.last().0, inputs.last().1)
    }
}

/// The positions of the live gems among the first `n`, in creation order.
pub open spec fn live_positions(gems: Seq<GemModel>, n: int) -> Seq<(int, int)>
    decreases n,
{
    if n <= 0 {
        Seq::empty()
    } else {
        live_positions(gems, n - 1) + if gems[n - 1].alive {
            seq![(gems[n - 1].x, gems[n - 1].y)]
        } else {
            Seq::empty()
        }
    }
}

/// There are never more live gems among the first `n` than `n`.
pub proof fn lemma_live_upto_le(gems: Seq<GemModel>, n: int)
    requires
        0 <= n,
    ensures
        0 <= live_upto(gems, n) <= n,
    decreases n,
{
    if n > 0 {
        lemma_live_upto_le(gems, n - 1);
    }
}

/// Collecting gem `i` lowers the live count by exactly one when `i` counts
/// and the gem was live, and leaves it unchanged otherwise.
pub proof fn lemma_live_upto_update(gems: Seq<GemModel>, i: int, n: int)
    requires
        0 <= i < gems.len(),
        0 <= n <= gems.len(),
    ensures
        live_upto(gems.update(i, collected_gem(gems[i])), n) == live_upto(gems, n) - if i < n
            && gems[i].alive {
            1int
        } else {
            0int
        },
    decreases n,
{
    if n > 0 {
        lemma_live_upto_update(gems, i, n - 1);
    }
}

/// Everything a single pickup preserves or moves by a bounded amount:
/// positions, camera, state and gem layout are untouched; score never falls
/// and health never rises; a score increment is matched one-for-one by a gem
/// leaving the live set; well-formedness is preserved.
pub proof fn lemma_pickup_one_props(w: WorldModel, i: int)
    requires
        w.wf(),
        0 <= i < w.gems.len(),
    ensures
        pickup_one(w, i).wf(),
        pickup_one(w, i).px == w.px,
        pickup_one(w, i).py == w.py,
        pickup_one(w, i).cam_x == w.cam_x,
        pickup_one(w, i).state == w.state,
        pickup_one(w, i).health_max == w.health_max,
        pickup_one(w, i).gems.len() == w.gems.len(),
        forall|j: int|
            0 <= j < w.gems.len() ==> (#[trigger] pickup_one(w, i).gems[j]).x == w.gems[j].x
                && pickup_one(w, i).gems[j].y == w.gems[j].y,
        forall|j: int|
            0 <= j < w.gems.len() && j != i ==> (#[trigger] pickup_one(w, i).gems[j]).alive
                == w.gems[j].alive,
        forall|j: int|
            0 <= j < w.gems.len() && (#[trigger] pickup_one(w, i).gems[j]).alive
                ==> w.gems[j].alive,
        w.score <= pickup_one(w, i).score <= w.score + 1,
        w.health - 1 <= pickup_one(w, i).health <= w.health,
        pickup_one(w, i).score - w.score == w.live_count() - pickup_one(w, i).live_count(),
{
    if w.gem_collectible(i) {
        lemma_live_upto_update(w.gems, i, w.gems.len() as int);
    }
}

/// [`lemma_pickup_one_props`] extended over the first `n` gems: the pickup
/// pass keeps the world well formed, touches nothing but score, health and
/// the live flags of the first `n` gems, and raises the score by exactly the
/// number of gems it removed from the live set.
pub proof fn lemma_pickup_upto_props(w: WorldModel, n: int)
    requires
        w.wf(),
        0 <= n <= w.gems.len(),
    ensures
        pickup_upto(w, n).wf(),
        pickup_upto(w, n).px == w.px,
        pickup_upto(w, n).py == w.py,
        pickup_upto(w, n).cam_x == w.cam_x,
        pickup_upto(w, n).state == w.state,
        pickup_upto(w, n).health_max == w.health_max,
        pickup_upto(w, n).gems.len() == w.gems.len(),
        forall|j: int|
            0 <= j < w.gems.len() ==> (#[trigger] pickup_upto(w, n).gems[j]).x == w.gems[j].x
                && pickup_upto(w, n).gems[j].y == w.gems[j].y,
        forall|j: int|
            n <= j < w.gems.len() ==> (#[trigger] pickup_upto(w, n).gems[j]).alive
                == w.gems[j].alive,
        forall|j: int|
            0 <= j < w.gems.len() && (#[trigger] pickup_upto(w, n).gems[j]).alive
                ==> w.gems[j].alive,
        w.score <= pickup_upto(w, n).score,
        pickup_upto(w, n).health <= w.health,
        pickup_upto(w, n).score - w.score == w.live_count() - pickup_upto(w, n).live_count(),
    decreases n,
{
    if n > 0 {
        lemma_pickup_upto_props(w, n - 1);
        lemma_pickup_one_props(pickup_upto(w, n - 1), n - 1);
    }
}

} // verus!
