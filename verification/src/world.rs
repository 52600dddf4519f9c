//! The executable world state and its read-only boundary.
//!
//! Fields are crate-private: only the simulation systems in this crate can
//! mutate score, health or the game state; outside readers take snapshots
//! through the accessors below.

use vstd::prelude::*;
use crate::{
    GameState, MAX_HEALTH, COORD_LIMIT, COLLECT_RADIUS, HORIZONTAL_STEP, VERTICAL_STEP,
    LOOK_AHEAD, intent_of,
};
use crate::model::{
    GemModel, WorldModel, camera_spec, clamp_coord, collected_gem, coord_ok, death_spec,
    in_radius, lemma_live_upto_le, lemma_live_upto_update, lemma_pickup_upto_props,
    live_positions, motion_spec, pickup_one, pickup_spec, pickup_upto, run_spec, step_spec,
    tick_spec,
};

verus! {

/// One gem on the track: position in subunits, and whether it is still live.
#[derive(Clone, Copy, Debug, PartialEq, Eq, Structural)]
pub struct Gem {
    pub x: i64,
    pub y: i64,
    pub alive: bool,
}

/// Player health: a current value held within `0 ..= max`.
#[derive(Clone, Copy, Debug, PartialEq, Eq, Structural)]
pub struct Health {
    pub current: i32,
    pub max: i32,
}

/// The whole game world: the single player, the camera, the gem track, the
/// score and the state machine.
pub struct World {
    pub(crate) player_x: i64,
    pub(crate) player_y: i64,
    pub(crate) camera_x: i64,
    pub(crate) health: Health,
    pub(crate) score: usize,
    pub(crate) gems: Vec<Gem>,
    pub(crate) state: GameState,
}

/// Model of one executable gem.
pub open spec fn gem_model(g: Gem) -> GemModel {
    GemModel { x: g.x as int, y: g.y as int, alive: g.alive }
}

/// Model of a gem track.
pub open spec fn gems_model(gems: Seq<Gem>) -> Seq<GemModel> {
    gems.map_values(|g: Gem| gem_model(g))
}

impl View for World {
    type V = WorldModel;

    closed spec fn view(&self) -> WorldModel {
        WorldModel {
            px: self.player_x as int,
            py: self.player_y as int,
            cam_x: self.camera_x as int,
            health: self.health.current as int,
            health_max: self.health.max as int,
            score: self.score as int,
            gems: gems_model(self.gems@),
            state: self.state,
        }
    }
}

impl World {
    /// A fresh world at game start: player at the origin with full health,
    /// camera at the origin, zero score, the given gem track, state Playing.
    pub fn new(gems: Vec<Gem>) -> (w: World)
        requires
            forall|i: int|
                0 <= i < gems@.len() ==> coord_ok((#[trigger] gems@[i]).x as int) && coord_ok(
                    gems@[i].y as int,
                ),
        ensures
            w@ == (WorldModel {
                px: 0,
                py: 0,
                cam_x: 0,
                health: MAX_HEALTH as int,
                health_max: MAX_HEALTH as int,
                score: 0,
                gems: gems_model(gems@),
                state: GameState::Playing,
            }),
            w@.wf(),
    {
        let n: usize = gems.len();
        let w = World {
            player_x: 0,
            player_y: 0,
            camera_x: 0,
            health: Health { current: MAX_HEALTH, max: MAX_HEALTH },
            score: 0,
            gems,
            state: GameState::Playing,
        };
        proof {
            assert(w@.gems.len() == n as int);
            lemma_live_upto_le(w@.gems, w@.gems.len() as int);
            assert forall|i: int| 0 <= i < w@.gems.len() implies coord_ok(
                (#[trigger] w@.gems[i]).x,
            ) && coord_ok(w@.gems[i].y) by {
                assert(w@.gems[i] == gem_model(gems@[i]));
            }
        }
        w
    }

    /// Current score snapshot.
    pub fn score(&self) -> (r: usize)
        ensures
            r as int == self@.score,
    {
        self.score
    }

    /// Current health snapshot.
    pub fn health_current(&self) -> (r: i32)
        ensures
            r as int == self@.health,
    {
        self.health.current
    }

    /// Maximum health snapshot.
    pub fn health_max(&self) -> (r: i32)
        ensures
            r as int == self@.health_max,
    {
        self.health.max
    }

    /// Current state of the game state machine.
    pub fn game_state(&self) -> (r: GameState)
        ensures
            r == self@.state,
    {
        self.state
    }

    /// Player horizontal position, in subunits.
    pub fn player_x(&self) -> (r: i64)
        ensures
            r as int == self@.px,
    {
        self.player_x
    }

    /// Player vertical position, in subunits.
    pub fn player_y(&self) -> (r: i64)
        ensures
            r as int == self@.py,
    {
        self.player_y
    }

    /// Camera horizontal position, in subunits.
    pub fn camera_x(&self) -> (r: i64)
        ensures
            r as int == self@.cam_x,
    {
        self.camera_x
    }

    /// Total number of gems ever created, live or collected.
    pub fn gem_count(&self) -> (r: usize)
        ensures
            r as int == self@.gems.len(),
    {
        self.gems.len()
    }

    /// The rendering snapshot: the positions of the live gems, in creation
    /// order, in subunits.
    pub fn live_gem_positions(&self) -> (r: Vec<(i64, i64)>)
        ensures
            r@.map_values(|p: (i64, i64)| (p.0 as int, p.1 as int)) == live_positions(
                self@.gems,
                self@.gems.len() as int,
            ),
    {
        let mut r: Vec<(i64, i64)> = Vec::new();
        let mut i: usize = 0;
        while i < self.gems.len()
            invariant
                i <= self.gems.len(),
                r@.map_values(|p: (i64, i64)| (p.0 as int, p.1 as int)) == live_positions(
                    self@.gems,
                    i as int,
                ),
            decreases self.gems.len() - i,
        {
            let g = self.gems[i];
            if g.alive {
                r.push((g.x, g.y));
            }
            proof {
                assert(gem_model(self.gems@[i as int]) == self@.gems[i as int]);
                assert(r@.map_values(|p: (i64, i64)| (p.0 as int, p.1 as int)) =~= live_positions(
                    self@.gems,
                    i + 1,
                ));
            }
            i = i + 1;
        }
        r
    }
}

/// Add a per-tick displacement to a coordinate, holding the result within
/// the machine coordinate bound.
fn clamped_add(v: i64, d: i64) -> (r: i64)
    requires
        coord_ok(v as int),
        -COORD_LIMIT <= d <= COORD_LIMIT,
    ensures
        r as int == clamp_coord(v as int + d as int),
{
    let sum: i64 = v + d;
    if sum < -COORD_LIMIT {
        -COORD_LIMIT
    } else if sum > COORD_LIMIT {
        COORD_LIMIT
    } else {
        sum
    }
}

/// The pickup proximity test, exact on squared distances; coordinates within
/// the machine bound keep every product inside `i64`.
fn in_radius_exec(px: i64, py: i64, gx: i64, gy: i64) -> (r: bool)
    requires
        coord_ok(px as int),
        coord_ok(py as int),
        coord_ok(gx as int),
        coord_ok(gy as int),
    ensures
        r == in_radius(px as int, py as int, gx as int, gy as int),
{
    let dx: i64 = px - gx;
    let dy: i64 = py - gy;
    proof {
        assert(0 <= dx * dx <= 0x1000_0000_0000_0000) by (nonlinear_arith)
            requires
                -0x4000_0000 <= dx <= 0x4000_0000,
        ;
        assert(0 <= dy * dy <= 0x1000_0000_0000_0000) by (nonlinear_arith)
            requires
                -0x4000_0000 <= dy <= 0x4000_0000,
        ;
    }
    dx * dx + dy * dy < COLLECT_RADIUS * COLLECT_RADIUS
}

impl World {
    /// One fixed simulation tick: Motion, then Camera Follow, then Pickup,
    /// in that order, gated on `Playing`; in `GameOver` nothing runs and the
    /// world is untouched. Returns the number of gems collected this tick,
    /// which is the number of collection-sound requests owed to the audio
    /// collaborator.
    pub fn tick(&mut self, up: bool, down: bool) -> (collected: usize)
        requires
            old(self)@.wf(),
        ensures
            final(self)@ == tick_spec(old(self)@, up, down),
            final(self)@.wf(),
            collected as int == final(self)@.score - old(self)@.score,
    {
        match self.state {
            GameState::GameOver => {
                proof {
                    assert(self@ == tick_spec(old(self)@, up, down));
                }
                0
            },
            GameState::Playing => {
                let score_before: usize = self.score;
                // Motion system
                let mut dy: i64 = 0;
                if up {
                    dy = dy + VERTICAL_STEP;
                }
                if down {
                    dy = dy - VERTICAL_STEP;
                }
                proof {
                    assert(dy as int == intent_of(up, down) * (VERTICAL_STEP as int));
                }
                self.player_x = clamped_add(self.player_x, HORIZONTAL_STEP);
                self.player_y = clamped_add(self.player_y, dy);
                // Camera follow system
                self.camera_x = self.player_x + LOOK_AHEAD;
                let ghost mid: WorldModel = self@;
                proof {
                    assert(mid =~= camera_spec(motion_spec(old(self)@, up, down)));
                    assert(mid.wf());
                }
                // Pickup system
                let mut i: usize = 0;
                while i < self.gems.len()
                    invariant
                        mid.wf(),
                        i <= mid.gems.len(),
                        self@ == pickup_upto(mid, i as int),
                        self@.gems.len() == mid.gems.len(),
                    decreases mid.gems.len() - i,
                {
                    proof {
                        lemma_pickup_upto_props(mid, i as int);
                    }
                    let ghost cur: WorldModel = self@;
                    let g = self.gems[i];
                    proof {
                        assert(gem_model(self.gems@[i as int]) == cur.gems[i as int]);
                    }
                    if g.alive && in_radius_exec(self.player_x, self.player_y, g.x, g.y) {
                        proof {
                            lemma_live_upto_update(cur.gems, i as int, cur.gems.len() as int);
                            lemma_live_upto_le(
                                cur.gems.update(i as int, collected_gem(cur.gems[i as int])),
                                cur.gems.len() as int,
                            );
                            assert(cur.score + 1 <= usize::MAX as int);
                        }
                        self.gems.set(i, Gem { x: g.x, y: g.y, alive: false });
                        self.score = self.score + 1;
                        if self.health.current > 0 {
                            self.health.current = self.health.current - 1;
                        }
                        proof {
                            assert(self@.gems =~= cur.gems.update(
                                i as int,
                                collected_gem(cur.gems[i as int]),
                            ));
                            assert(self@ =~= pickup_one(cur, i as int));
                            assert(self@ == pickup_upto(mid, i + 1));
                        }
                    } else {
                        proof {
                            assert(pickup_one(cur, i as int) == cur);
                            assert(self@ == pickup_upto(mid, i + 1));
                        }
                    }
                    i = i + 1;
                }
                proof {
                    lemma_pickup_upto_props(mid, mid.gems.len() as int);
                    assert(self@ == pickup_spec(mid));
                    assert(self@ == tick_spec(old(self)@, up, down));
                }
                let collected: usize = self.score - score_before;
                collected
            },
        }
    }

    /// The death check: level-triggered once per frame; latches the state
    /// machine from Playing to GameOver when health has reached zero, and
    /// never leaves GameOver.
    pub fn check_death(&mut self)
        ensures
            final(self)@ == death_spec(old(self)@),
    {
        match self.state {
            GameState::Playing => {
                if self.health.current <= 0 {
                    self.state = GameState::GameOver;
                    proof {
                        assert(self@ =~= death_spec(old(self)@));
                    }
                }
            },
            GameState::GameOver => {},
        }
    }

    /// One full frame-aligned step: a simulation tick followed by the death
    /// check. Returns the number of gems collected, as [`World::tick`] does.
    pub fn step(&mut self, up: bool, down: bool) -> (collected: usize)
        requires
            old(self)@.wf(),
        ensures
            final(self)@ == step_spec(old(self)@, up, down),
            final(self)@.wf(),
            collected as int == final(self)@.score - old(self)@.score,
    {
        let collected = self.tick(up, down);
        self.check_death();
        collected
    }

    /// Drive the simulation through a whole sequence of per-tick input
    /// signals. The final world is a function of the starting world and the
    /// inputs alone: replaying the same inputs reproduces it exactly.
    pub fn run(&mut self, inputs: &Vec<(bool, bool)>)
        requires
            old(self)@.wf(),
        ensures
            final(self)@ == run_spec(old(self)@, inputs@),
            final(self)@.wf(),
    {
        let mut i: usize = 0;
        while i < inputs.len()
            invariant
                i <= inputs.len(),
                self@.wf(),
                self@ == run_spec(old(self)@, inputs@.take(i as int)),
            decreases inputs.len() - i,
        {
            let p = inputs[i];
            self.step(p.0, p.1);
            proof {
                assert(inputs@.take(i + 1).drop_last() =~= inputs@.take(i as int));
                assert(inputs@.take(i + 1).last() == inputs@[i as int]);
            }
            i = i + 1;
        }
        proof {
            assert(inputs@.take(inputs@.len() as int) =~= inputs@);
        }
    }
}

/// The terminal message for the UI collaborator: shown once the state
/// machine has latched into GameOver, empty while still playing.
pub fn game_over_message(state: GameState) -> (r: &'static str)
    ensures
        state == GameState::GameOver ==> r@ == "YOU DIED"@,
        state == GameState::Playing ==> r@ == ""@,
{
    match state {
        GameState::GameOver => "YOU DIED",
        GameState::Playing => "",
    }
}

} // verus!
