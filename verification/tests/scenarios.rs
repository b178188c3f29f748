//! End-to-end scenarios of whole play sessions, driven tick by tick.

use platform_hop::game::Game;
use platform_hop::game::GameState;
use platform_hop::game::Input;
use platform_hop::platform::Platform;
use platform_hop::player::Player;

fn fresh_playing() -> Game {
    let mut g = Game::new();
    let r = g.tick(Input::Click, 0, 0, 0);
    assert!(!r.landed && !r.game_over);
    assert_eq!(g.state, GameState::Playing);
    g
}

#[test]
fn max_charge_landing_scores() {
    let mut g = fresh_playing();
    // Launch platform spans [0, 2], target spans [5, 7].
    g.platforms = vec![
        Platform { left: 0, width: 2, index: 0 },
        Platform { left: 5, width: 2, index: 1 },
    ];
    g.player = Some(Player { x: 1, y: 0 });
    let r = g.tick(Input::Press, 0, 0, 0);
    assert!(!r.launched);
    assert!(g.charge.is_some());
    // Hold for exactly the maximum charge duration: the jump auto-releases
    // at maximum power (distance 5) and the whole arc resolves this tick.
    let r = g.tick(Input::Hold, 50, 0, 0);
    assert!(r.launched);
    assert!(r.landed);
    assert!(!r.missed);
    assert!(!r.game_over);
    assert_eq!(g.scoreboard(), 1);
    assert_eq!(g.player, Some(Player { x: 6, y: 0 }));
    // The score-up entry was emitted at the landing position and is already
    // spawned as a visual.
    assert_eq!(g.queue.len(), 0);
    assert_eq!(g.effects.len(), 1);
    assert_eq!(g.effects[0].x, 6);
    assert_eq!(g.effects[0].value, 1);
    // A landing generates the next platform.
    assert_eq!(g.platforms.len(), 3);
}

#[test]
fn score_increments_once_per_landing() {
    let mut g = fresh_playing();
    g.platforms = vec![
        Platform { left: 0, width: 2, index: 0 },
        Platform { left: 5, width: 2, index: 1 },
    ];
    g.player = Some(Player { x: 1, y: 0 });
    // First landing: from x = 1 at max power to x = 6 in [5, 7].
    g.tick(Input::Press, 0, 0, 0);
    let r = g.tick(Input::Hold, 50, 0, 0);
    assert!(r.landed);
    assert_eq!(g.scoreboard(), 1);
    // Generated next platform (score 1, draws 0, 0): gap 2, width 2,
    // so it spans [9, 11]. Second max-power jump: 6 + 5 = 11, its right edge.
    assert_eq!(g.platforms[2], Platform { left: 9, width: 2, index: 2 });
    g.tick(Input::Press, 0, 0, 0);
    let r = g.tick(Input::Hold, 50, 0, 0);
    assert!(r.landed);
    assert_eq!(g.scoreboard(), 2);
    // Ticks without landings leave the score alone.
    let r = g.tick(Input::Quiet, 7, 0, 0);
    assert!(!r.landed);
    assert_eq!(g.scoreboard(), 2);
}

#[test]
fn short_jump_over_wide_gap_falls_to_game_over() {
    let mut g = fresh_playing();
    // Target gap of 10: 5 units beyond the maximum jump range.
    g.platforms = vec![
        Platform { left: 0, width: 2, index: 0 },
        Platform { left: 12, width: 2, index: 1 },
    ];
    g.player = Some(Player { x: 1, y: 0 });
    g.tick(Input::Press, 0, 0, 0);
    // Release immediately: near-zero charge, power 0.
    let r = g.tick(Input::Release, 0, 0, 0);
    assert!(r.launched);
    assert!(r.missed);
    assert!(!r.landed);
    assert!(!r.game_over);
    assert!(g.fall.in_progress);
    assert!(!g.jump.in_progress);
    assert_eq!(g.scoreboard(), 0);
    // Fall until the below-camera floor is crossed: the run ends.
    let r = g.tick(Input::Quiet, 50, 0, 0);
    assert!(r.game_over);
    assert_eq!(g.state, GameState::GameOver);
    assert!(g.game_over_live);
    assert!(g.player.is_none());
    assert!(!g.fall.in_progress);
    assert!(!g.jump.in_progress);
}

#[test]
fn jump_and_fall_never_both_in_progress() {
    let mut g = fresh_playing();
    g.platforms = vec![
        Platform { left: 0, width: 2, index: 0 },
        Platform { left: 12, width: 2, index: 1 },
    ];
    g.player = Some(Player { x: 1, y: 0 });
    assert!(!(g.jump.in_progress && g.fall.in_progress));
    g.tick(Input::Press, 0, 0, 0);
    assert!(!(g.jump.in_progress && g.fall.in_progress));
    g.tick(Input::Hold, 10, 0, 0);
    assert!(!(g.jump.in_progress && g.fall.in_progress));
    // Advance through flight, miss, and the whole fall, one small tick at a
    // time: the two attempt states are never simultaneously live.
    for _ in 0..40 {
        g.tick(Input::Quiet, 5, 0, 0);
        assert!(!(g.jump.in_progress && g.fall.in_progress));
    }
    assert_eq!(g.state, GameState::GameOver);
}

#[test]
fn restart_three_times_always_fresh() {
    let mut g = Game::new();
    for _ in 0..3 {
        // Start a run from the main menu.
        assert_eq!(g.state, GameState::MainMenu);
        g.tick(Input::Click, 0, 0, 0);
        assert_eq!(g.state, GameState::Playing);
        assert_eq!(g.scoreboard(), 0);
        assert!(g.player.is_some());
        assert_eq!(g.platforms.len(), 1);
        assert_eq!(g.platforms[0], Platform { left: 0, width: 4, index: 0 });
        assert!(g.scoreboard_live);
        // Die: a max-power jump from the first platform lands at x = 7,
        // beyond its span [0, 4].
        g.tick(Input::Press, 0, 0, 0);
        // One 50-tick frame: auto-launch at max power, miss, and fall the
        // whole way below the floor.
        let r = g.tick(Input::Hold, 50, 0, 0);
        assert!(r.missed);
        assert!(r.game_over);
        assert_eq!(g.state, GameState::GameOver);
        // Back to the main menu: stale entities are cleared.
        g.tick(Input::Click, 0, 0, 0);
        assert_eq!(g.state, GameState::MainMenu);
        assert!(g.main_menu_live);
        assert!(g.player.is_none());
        assert!(g.platforms.is_empty());
        assert!(!g.scoreboard_live);
    }
}

#[test]
fn enter_playing_hooks_are_idempotent() {
    let mut g = Game::new();
    g.enter_playing();
    let score = g.score;
    let player = g.player;
    let platforms = g.platforms.clone();
    let jump = g.jump;
    let fall = g.fall;
    let charge = g.charge;
    let camera = g.camera;
    let prepare = g.prepare;
    let particle = g.particle;
    let queue = g.queue.clone();
    let effects = g.effects.clone();
    g.enter_playing();
    assert_eq!(g.score, score);
    assert_eq!(g.player, player);
    assert_eq!(g.platforms, platforms);
    assert_eq!(g.jump, jump);
    assert_eq!(g.fall, fall);
    assert_eq!(g.charge, charge);
    assert_eq!(g.camera, camera);
    assert_eq!(g.prepare, prepare);
    assert_eq!(g.particle, particle);
    assert_eq!(g.queue, queue);
    assert_eq!(g.effects, effects);
    assert!(g.scoreboard_live);
}

#[test]
fn landing_on_either_edge_counts() {
    // Left edge: power 3 from x = 1 comes down at exactly x = 4.
    let mut g = fresh_playing();
    g.platforms = vec![
        Platform { left: 0, width: 2, index: 0 },
        Platform { left: 4, width: 3, index: 1 },
    ];
    g.player = Some(Player { x: 1, y: 0 });
    g.tick(Input::Press, 0, 0, 0);
    g.tick(Input::Hold, 30, 0, 0);
    let r = g.tick(Input::Release, 0, 0, 0);
    assert!(r.launched);
    let r = g.tick(Input::Quiet, 30, 0, 0);
    assert!(r.landed);
    assert_eq!(g.player, Some(Player { x: 4, y: 0 }));
    // Right edge: power 5 from x = 1 comes down at exactly x = 6.
    let mut g = fresh_playing();
    g.platforms = vec![
        Platform { left: 0, width: 2, index: 0 },
        Platform { left: 4, width: 2, index: 1 },
    ];
    g.player = Some(Player { x: 1, y: 0 });
    g.tick(Input::Press, 0, 0, 0);
    let r = g.tick(Input::Hold, 50, 0, 0);
    assert!(r.landed);
    assert_eq!(g.player, Some(Player { x: 6, y: 0 }));
    // One unit short of the span is a miss.
    let mut g = fresh_playing();
    g.platforms = vec![
        Platform { left: 0, width: 2, index: 0 },
        Platform { left: 7, width: 2, index: 1 },
    ];
    g.player = Some(Player { x: 1, y: 0 });
    g.tick(Input::Press, 0, 0, 0);
    let r = g.tick(Input::Hold, 50, 0, 0);
    assert!(r.missed);
}

#[test]
fn charge_input_ignored_while_airborne() {
    let mut g = fresh_playing();
    g.platforms = vec![
        Platform { left: 0, width: 2, index: 0 },
        Platform { left: 5, width: 2, index: 1 },
    ];
    g.player = Some(Player { x: 1, y: 0 });
    g.tick(Input::Press, 0, 0, 0);
    g.tick(Input::Hold, 20, 0, 0);
    let r = g.tick(Input::Release, 0, 0, 0);
    assert!(r.launched);
    assert!(g.jump.in_progress);
    // Mid-flight press: no new charge starts.
    let r = g.tick(Input::Press, 5, 0, 0);
    assert!(!r.launched);
    assert!(g.charge.is_none());
    assert!(g.jump.in_progress);
}

#[test]
fn platform_window_is_pruned() {
    let mut g = fresh_playing();
    // Five live platforms, the most the window keeps; the player stands so
    // that a max-power jump lands on the newest one, spanning [5, 7].
    g.platforms = vec![
        Platform { left: 0, width: 2, index: 0 },
        Platform { left: 1, width: 2, index: 1 },
        Platform { left: 2, width: 2, index: 2 },
        Platform { left: 3, width: 2, index: 3 },
        Platform { left: 5, width: 2, index: 4 },
    ];
    g.player = Some(Player { x: 1, y: 0 });
    g.tick(Input::Press, 0, 0, 0);
    let r = g.tick(Input::Hold, 50, 0, 0);
    assert!(r.landed);
    // The landing appended a sixth platform and pruned the oldest.
    assert_eq!(g.platforms.len(), 5);
    assert_eq!(g.platforms[0], Platform { left: 1, width: 2, index: 1 });
    assert_eq!(g.platforms[4].index, 5);
}

#[test]
fn particle_timer_fires_while_charging() {
    let mut g = fresh_playing();
    let r = g.tick(Input::Press, 0, 0, 0);
    assert!(!r.particles_ready);
    // Holding across the particle timer's duration reports the burst once.
    let r = g.tick(Input::Hold, 12, 0, 0);
    assert!(r.particles_ready);
    let r = g.tick(Input::Hold, 5, 0, 0);
    assert!(!r.particles_ready);
}
