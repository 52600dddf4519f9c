//! The library's global guarantees, proved over the transition model: health
//! bounds, exact score accounting, pickup idempotence, and the one-way
//! Playing-to-GameOver latch.

use vstd::prelude::*;
use crate::GameState;
use crate::model::{
    WorldModel, camera_spec, lemma_pickup_upto_props, motion_spec, pickup_one, run_spec,
    step_spec,
};

verus! {

/// Everything one full step preserves or moves in one direction: the world
/// stays well formed, gem layout and health maximum are fixed, score never
/// falls, health never rises, each score increment matches one gem leaving
/// the live set, GameOver freezes the world, and the state machine latches
/// from Playing to GameOver exactly when health has reached zero.
pub proof fn lemma_step_props(w: WorldModel, up: bool, down: bool)
    requires
        w.wf(),
    ensures
        step_spec(w, up, down).wf(),
        w.state == GameState::GameOver ==> step_spec(w, up, down) == w,
        step_spec(w, up, down).health_max == w.health_max,
        step_spec(w, up, down).gems.len() == w.gems.len(),
        forall|j: int|
            0 <= j < w.gems.len() ==> (#[trigger] step_spec(w, up, down).gems[j]).x
                == w.gems[j].x && step_spec(w, up, down).gems[j].y == w.gems[j].y,
        forall|j: int|
            0 <= j < w.gems.len() && (#[trigger] step_spec(w, up, down).gems[j]).alive
                ==> w.gems[j].alive,
        w.score <= step_spec(w, up, down).score,
        step_spec(w, up, down).health <= w.health,
        step_spec(w, up, down).score - w.score == w.live_count() - step_spec(
            w,
            up,
            down,
        ).live_count(),
        step_spec(w, up, down).state == GameState::GameOver ==> w.state == GameState::GameOver
            || step_spec(w, up, down).health == 0,
        step_spec(w, up, down).state == GameState::Playing ==> w.state == GameState::Playing
            && step_spec(w, up, down).health > 0,
{
    if w.state == GameState::Playing {
        let mid = camera_spec(motion_spec(w, up, down));
        lemma_pickup_upto_props(mid, mid.gems.len() as int);
    }
}

/// [`lemma_step_props`] extended over a whole input sequence, by induction
/// on the run.
pub proof fn lemma_run_props(w: WorldModel, inputs: Seq<(bool, bool)>)
    requires
        w.wf(),
    ensures
        run_spec(w, inputs).wf(),
        w.state == GameState::GameOver ==> run_spec(w, inputs) == w,
        run_spec(w, inputs).health_max == w.health_max,
        run_spec(w, inputs).gems.len() == w.gems.len(),
        forall|j: int|
            0 <= j < w.gems.len() ==> (#[trigger] run_spec(w, inputs).gems[j]).x == w.gems[j].x
                && run_spec(w, inputs).gems[j].y == w.gems[j].y,
        forall|j: int|
            0 <= j < w.gems.len() && (#[trigger] run_spec(w, inputs).gems[j]).alive
                ==> w.gems[j].alive,
        w.score <= run_spec(w, inputs).score,
        run_spec(w, inputs).health <= w.health,
        run_spec(w, inputs).score - w.score == w.live_count() - run_spec(w, inputs).live_count(),
        run_spec(w, inputs).state == GameState::GameOver ==> w.state == GameState::GameOver
            || run_spec(w, inputs).health == 0,
        run_spec(w, inputs).state == GameState::Playing ==> w.state == GameState::Playing,
        inputs.len() > 0 && run_spec(w, inputs).state == GameState::Playing ==> run_spec(
            w,
            inputs,
        ).health > 0,
    decreases inputs.len(),
{
    if inputs.len() > 0 {
        let prev = run_spec(w, inputs.drop_last());
        lemma_run_props(w, inputs.drop_last());
        lemma_step_props(prev, inputs.last().0, inputs.last().1);
    }
}

/// Whatever the inputs, health never leaves `0 ..= health_max`: the pickup
/// clamp keeps it non-negative and nothing ever raises it past the maximum.
pub proof fn lemma_health_always_in_bounds(w: WorldModel, inputs: Seq<(bool, bool)>)
    requires
        w.wf(),
    ensures
        0 <= run_spec(w, inputs).health <= run_spec(w, inputs).health_max,
        run_spec(w, inputs).wf(),
{
    lemma_run_props(w, inputs);
}

/// The score counts distinct collections exactly: over any run it rises by
/// precisely the number of gems that left the live set, gems only ever leave
/// it, and the gem layout itself never changes.
pub proof fn lemma_score_counts_collections(w: WorldModel, inputs: Seq<(bool, bool)>)
    requires
        w.wf(),
    ensures
        run_spec(w, inputs).score - w.score == w.live_count() - run_spec(w, inputs).live_count(),
        w.score <= run_spec(w, inputs).score,
        run_spec(w, inputs).gems.len() == w.gems.len(),
        forall|j: int|
            0 <= j < w.gems.len() && (#[trigger] run_spec(w, inputs).gems[j]).alive
                ==> w.gems[j].alive,
{
    lemma_run_props(w, inputs);
}

/// Collecting an already-removed gem is a no-op: it changes neither score
/// nor health nor anything else.
pub proof fn lemma_collect_removed_gem_is_noop(w: WorldModel, i: int)
    requires
        0 <= i < w.gems.len(),
        !w.gems[i].alive,
    ensures
        pickup_one(w, i) == w,
{
}

/// The state machine moves only from Playing to GameOver, never back; the
/// transition happens exactly when health has reached zero — never before
/// the death check that follows the tick in which it did — and once in
/// GameOver the whole world is frozen.
pub proof fn lemma_game_over_latch(w: WorldModel, inputs: Seq<(bool, bool)>)
    requires
        w.wf(),
    ensures
        w.state == GameState::GameOver ==> run_spec(w, inputs) == w,
        run_spec(w, inputs).state == GameState::Playing ==> w.state == GameState::Playing,
        run_spec(w, inputs).state == GameState::GameOver ==> w.state == GameState::GameOver
            || run_spec(w, inputs).health == 0,
        inputs.len() > 0 && run_spec(w, inputs).state == GameState::Playing ==> run_spec(
            w,
            inputs,
        ).health > 0,
{
    lemma_run_props(w, inputs);
}

} // verus!
