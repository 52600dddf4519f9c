//! Game setup: laying the gem track out along the scroll axis, with a
//! seedable randomized vertical scatter, and building the starting world.

use vstd::prelude::*;
use crate::{COORD_LIMIT, GEM_COUNT, GEM_SCATTER, GEM_SPACING, GEM_X_OFFSET, GameState, MAX_HEALTH};
use crate::model::coord_ok;
use crate::world::{Gem, World, gem_model, gems_model};

verus! {

/// Declares rand's standard generator so that it can cross the signatures
/// below; it stays opaque — nothing is assumed of the values it yields
/// beyond what each call's own contract states.
#[verifier::external_type_specification]
#[verifier::external_body]
pub struct ExStdRng(rand::rngs::StdRng);

/// Relies on rand::SeedableRng::seed_from_u64: builds a generator from a
/// 64-bit seed, so that gem placement is reproducible for tests.
#[verifier::external_body]
pub(crate) fn seed_rng(seed: u64) -> rand::rngs::StdRng {
    <rand::rngs::StdRng as rand::SeedableRng>::seed_from_u64(seed)
}

/// Relies on rand::Rng::gen_range: returns a uniformly random value within
/// the given half-open range. It panics on an empty range, so a non-empty
/// one is required; nothing more than membership is promised of the draw.
#[verifier::external_body]
fn rand_range(rng: &mut rand::rngs::StdRng, lo: i64, hi: i64) -> (r: i64)
    requires
        lo < hi,
    ensures
        lo <= r < hi,
{
    rand::Rng::gen_range(rng, lo..hi)
}

/// Lay out `count` live gems along the scroll axis: gem `i` at horizontal
/// position `GEM_X_OFFSET + i * GEM_SPACING`, with a randomized vertical
/// offset drawn uniformly from the scatter band.
pub fn spawn_gems(rng: &mut rand::rngs::StdRng, count: usize) -> (gems: Vec<Gem>)
    requires
        GEM_X_OFFSET as int + (count as int) * (GEM_SPACING as int) <= COORD_LIMIT as int,
    ensures
        gems@.len() == count,
        forall|i: int|
            0 <= i < count ==> (#[trigger] gems@[i]).x as int == GEM_X_OFFSET as int + i
                * (GEM_SPACING as int),
        forall|i: int| 0 <= i < count ==> -GEM_SCATTER <= (#[trigger] gems@[i]).y < GEM_SCATTER,
        forall|i: int| 0 <= i < count ==> (#[trigger] gems@[i]).alive,
{
    let mut gems: Vec<Gem> = Vec::new();
    let mut i: usize = 0;
    while i < count
        invariant
            i <= count,
            GEM_X_OFFSET as int + (count as int) * (GEM_SPACING as int) <= COORD_LIMIT as int,
            gems@.len() == i,
            forall|j: int|
                0 <= j < i ==> (#[trigger] gems@[j]).x as int == GEM_X_OFFSET as int + j
                    * (GEM_SPACING as int),
            forall|j: int| 0 <= j < i ==> -GEM_SCATTER <= (#[trigger] gems@[j]).y < GEM_SCATTER,
            forall|j: int| 0 <= j < i ==> (#[trigger] gems@[j]).alive,
        decreases count - i,
    {
        proof {
            assert(0 <= (i as int) * (GEM_SPACING as int) && (i as int) * (GEM_SPACING as int)
                < (count as int) * (GEM_SPACING as int)) by (nonlinear_arith)
                requires
                    0 <= (i as int) < (count as int),
                    GEM_SPACING > 0,
            ;
        }
        let x: i64 = GEM_X_OFFSET + (i as i64) * GEM_SPACING;
        let y: i64 = rand_range(rng, -GEM_SCATTER, GEM_SCATTER);
        gems.push(Gem { x, y, alive: true });
        i = i + 1;
    }
    gems
}

/// Start a new game from a placement seed: the full gem track laid out along
/// the scroll axis, the player at the origin with full health, zero score,
/// and the state machine in Playing.
pub fn new_game(seed: u64) -> (w: World)
    ensures
        w@.wf(),
        w@.px == 0,
        w@.py == 0,
        w@.cam_x == 0,
        w@.health == MAX_HEALTH as int,
        w@.health_max == MAX_HEALTH as int,
        w@.score == 0,
        w@.state == GameState::Playing,
        w@.gems.len() == GEM_COUNT,
        forall|i: int|
            0 <= i < GEM_COUNT ==> (#[trigger] w@.gems[i]).x == GEM_X_OFFSET as int + i
                * (GEM_SPACING as int),
        forall|i: int|
            0 <= i < GEM_COUNT ==> -GEM_SCATTER <= (#[trigger] w@.gems[i]).y < GEM_SCATTER,
        forall|i: int| 0 <= i < GEM_COUNT ==> (#[trigger] w@.gems[i]).alive,
{
    let mut rng = seed_rng(seed);
    let gems = spawn_gems(&mut rng, GEM_COUNT);
    proof {
        assert forall|i: int| 0 <= i < gems@.len() implies coord_ok(
            (#[trigger] gems@[i]).x as int,
        ) && coord_ok(gems@[i].y as int) by {
            assert((i as int) * (GEM_SPACING as int) <= (GEM_COUNT as int) * (
            GEM_SPACING as int)) by (nonlinear_arith)
                requires
                    0 <= i < GEM_COUNT as int,
                    GEM_SPACING > 0,
            ;
            assert((i as int) * (GEM_SPACING as int) >= 0) by (nonlinear_arith)
                requires
                    0 <= i,
                    GEM_SPACING > 0,
            ;
        }
    }
    let w = World::new(gems);
    proof {
        assert forall|i: int| 0 <= i < GEM_COUNT implies (#[trigger] w@.gems[i]) == gem_model(
            gems@[i],
        ) by {
            assert(w@.gems == gems_model(gems@));
        }
    }
    w
}

} // verus!
