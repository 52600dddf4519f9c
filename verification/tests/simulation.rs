use gemrun::world::{game_over_message, Gem, World};
use gemrun::setup::new_game;
use gemrun::{GameState, GEM_COUNT, GEM_SCATTER, GEM_SPACING, GEM_X_OFFSET, LOOK_AHEAD, SCALE};

fn gem(x: i64, y: i64) -> Gem {
    Gem { x, y, alive: true }
}

#[test]
fn health_stays_in_bounds_over_any_run() {
    // A dense line of gems right on the player's path: more gems than health.
    let mut gems = Vec::new();
    for i in 1..20 {
        gems.push(gem(300 * i, 0));
    }
    let mut w = World::new(gems);
    for t in 0..200 {
        let up = t % 3 == 0;
        let down = t % 5 == 0;
        w.step(up, down);
        assert!(w.health_current() >= 0);
        assert!(w.health_current() <= w.health_max());
    }
}

#[test]
fn three_gems_in_radius_end_the_game() {
    // After the first tick the player sits at (300, 0); all three gems are
    // within the collection radius of 1920 subunits.
    let gems = vec![gem(300, 0), gem(400, 100), gem(200, -100)];
    let mut w = World::new(gems);
    assert_eq!(w.score(), 0);
    assert_eq!(w.health_current(), 3);
    let collected = w.step(false, false);
    assert_eq!(collected, 3);
    assert_eq!(w.score(), 3);
    assert_eq!(w.health_current(), 0);
    assert_eq!(w.game_state(), GameState::GameOver);
}

#[test]
fn no_gem_in_range_changes_nothing() {
    // Gems far above the track: never within the collection radius.
    let gems = vec![gem(300, 100_000), gem(600, 100_000)];
    let mut w = World::new(gems);
    for _ in 0..500 {
        w.step(false, false);
        assert_eq!(w.score(), 0);
        assert_eq!(w.health_current(), 3);
        assert_eq!(w.game_state(), GameState::Playing);
    }
    assert_eq!(w.live_gem_positions().len(), 2);
}

#[test]
fn collected_gem_is_never_collected_again() {
    let gems = vec![gem(300, 0)];
    let mut w = World::new(gems);
    let first = w.step(false, false);
    assert_eq!(first, 1);
    assert_eq!(w.score(), 1);
    assert_eq!(w.health_current(), 2);
    // The next tick leaves the player at (600, 0), still well within radius
    // of the removed gem; neither score nor health may move.
    let second = w.step(false, false);
    assert_eq!(second, 0);
    assert_eq!(w.score(), 1);
    assert_eq!(w.health_current(), 2);
    assert_eq!(w.live_gem_positions().len(), 0);
}

#[test]
fn up_held_one_second_displaces_300_units() {
    let mut w = World::new(Vec::new());
    for _ in 0..64 {
        w.step(true, false);
    }
    // 64 ticks at 300 subunits each: 300 world units in both axes.
    assert_eq!(w.player_y(), 300 * SCALE);
    assert_eq!(w.player_x(), 300 * SCALE);
}

#[test]
fn opposite_inputs_cancel() {
    let mut w = World::new(Vec::new());
    for _ in 0..10 {
        w.step(true, true);
    }
    assert_eq!(w.player_y(), 0);
    for _ in 0..10 {
        w.step(false, true);
    }
    assert_eq!(w.player_y(), -10 * 300);
}

#[test]
fn game_over_freezes_the_world() {
    // Three gems end the game on the first step; a fourth, out of radius at
    // the death tick, would come within radius one tick later if the player
    // kept scrolling — but with health at zero the pickup system is gated
    // off along with motion, so it is never collected.
    let gems = vec![gem(300, 0), gem(350, 50), gem(250, -50), gem(2250, 0)];
    let mut w = World::new(gems);
    w.step(false, false);
    assert_eq!(w.game_state(), GameState::GameOver);
    assert_eq!(w.score(), 3);
    let x = w.player_x();
    for _ in 0..50 {
        let collected = w.step(true, false);
        assert_eq!(collected, 0);
    }
    assert_eq!(w.score(), 3);
    assert_eq!(w.health_current(), 0);
    assert_eq!(w.player_x(), x);
    assert_eq!(w.game_state(), GameState::GameOver);
    assert_eq!(w.live_gem_positions().len(), 1);
}

#[test]
fn simultaneous_pickups_all_count_in_one_tick() {
    // Five gems inside the radius of the player's position after one tick:
    // all collected in that same tick, one score unit each, health clamped
    // at zero.
    let gems = vec![gem(300, 0), gem(600, 0), gem(900, 0), gem(1200, 0), gem(1500, 0)];
    let mut w = World::new(gems);
    let collected = w.step(false, false);
    assert_eq!(collected, 5);
    assert_eq!(w.score(), 5);
    assert_eq!(w.health_current(), 0);
    assert_eq!(w.live_gem_positions().len(), 0);
}

#[test]
fn camera_leads_player_by_look_ahead() {
    let mut w = World::new(Vec::new());
    assert_eq!(w.camera_x(), 0);
    for _ in 0..7 {
        w.step(false, true);
        assert_eq!(w.camera_x(), w.player_x() + LOOK_AHEAD);
    }
}

#[test]
fn same_seed_reproduces_the_whole_run() {
    let mut a = new_game(42);
    let mut b = new_game(42);
    assert_eq!(a.live_gem_positions(), b.live_gem_positions());
    let inputs: Vec<(bool, bool)> = (0..300u32).map(|t| (t % 2 == 0, t % 7 == 0)).collect();
    a.run(&inputs);
    b.run(&inputs);
    assert_eq!(a.score(), b.score());
    assert_eq!(a.health_current(), b.health_current());
    assert_eq!(a.player_x(), b.player_x());
    assert_eq!(a.player_y(), b.player_y());
    assert_eq!(a.camera_x(), b.camera_x());
    assert_eq!(a.game_state(), b.game_state());
    assert_eq!(a.live_gem_positions(), b.live_gem_positions());
}

#[test]
fn new_game_lays_the_track_out() {
    let w = new_game(7);
    assert_eq!(w.gem_count(), GEM_COUNT);
    assert_eq!(w.score(), 0);
    assert_eq!(w.health_current(), 3);
    assert_eq!(w.health_max(), 3);
    assert_eq!(w.game_state(), GameState::Playing);
    assert_eq!(w.player_x(), 0);
    assert_eq!(w.player_y(), 0);
    let positions = w.live_gem_positions();
    assert_eq!(positions.len(), GEM_COUNT);
    for (i, &(x, y)) in positions.iter().enumerate() {
        assert_eq!(x, GEM_X_OFFSET + i as i64 * GEM_SPACING);
        assert!(-GEM_SCATTER <= y && y < GEM_SCATTER);
    }
}

#[test]
fn scatter_is_randomized_across_gems() {
    // The vertical offsets come from the seeded generator: a hundred draws
    // from a 400-unit band cannot all coincide.
    let w = new_game(1);
    let positions = w.live_gem_positions();
    let first_y = positions[0].1;
    assert!(positions.iter().any(|&(_, y)| y != first_y));
}

#[test]
fn empty_track_keeps_playing() {
    let mut w = World::new(Vec::new());
    for _ in 0..10 {
        let collected = w.step(false, false);
        assert_eq!(collected, 0);
    }
    assert_eq!(w.score(), 0);
    assert_eq!(w.game_state(), GameState::Playing);
    assert_eq!(w.player_x(), 10 * 300);
}

#[test]
fn terminal_message_matches_state() {
    assert_eq!(game_over_message(GameState::GameOver), "YOU DIED");
    assert_eq!(game_over_message(GameState::Playing), "");
}
