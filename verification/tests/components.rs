//! Component-level checks: generator ranges, the charge-to-power curve,
//! camera easing, timers, and the score-up visual pipeline.

use platform_hop::camera::Camera;
use platform_hop::platform::next_platform;
use platform_hop::platform::COORD_CAP;
use platform_hop::platform::Platform;
use platform_hop::player::jump_power;
use platform_hop::score::step_effects;
use platform_hop::score::effect_y;
use platform_hop::score::ScoreUpEffect;
use platform_hop::score::ScoreUpEntry;
use platform_hop::timer::Timer;

#[test]
fn jump_power_follows_charge_and_clamps() {
    assert_eq!(jump_power(0), 0);
    assert_eq!(jump_power(9), 0);
    assert_eq!(jump_power(10), 1);
    assert_eq!(jump_power(25), 2);
    assert_eq!(jump_power(49), 4);
    assert_eq!(jump_power(50), 5);
    // At or past the configured maximum the power is the maximum's power.
    assert_eq!(jump_power(51), jump_power(50));
    assert_eq!(jump_power(1000), jump_power(50));
    assert_eq!(jump_power(i64::MAX), 5);
}

#[test]
fn generated_platforms_stay_reachable() {
    let mut prev = Platform { left: 10, width: 3, index: 4 };
    let draws: [(u64, u64); 6] = [
        (0, 0),
        (1, 2),
        (7, 5),
        (12345, 999),
        (u64::MAX, u64::MAX),
        (3, 1),
    ];
    for score in [0u64, 5, 25, 100, 100_000] {
        for (r1, r2) in draws {
            let p = next_platform(&prev, score, r1, r2);
            let gap = p.left - (prev.left + prev.width);
            // The gap never exceeds the maximum jump distance of 5, so a
            // max-power jump from the previous right edge reaches the span.
            assert!(gap >= 2 && gap <= 5);
            assert!(p.width >= 2 && p.width <= 4);
            assert_eq!(p.index, prev.index + 1);
            prev = p;
        }
    }
}

#[test]
fn saturated_platform_stays_reachable() {
    // A previous platform right at the coordinate cap: the new left
    // coordinate saturates, the width is forced to the maximum, and the new
    // span still covers a landing from the previous right edge.
    let prev = Platform { left: COORD_CAP - 1, width: 4, index: 7 };
    for r1 in 0..4u64 {
        for r2 in 0..3u64 {
            let p = next_platform(&prev, 0, r1, r2);
            assert_eq!(p.left, COORD_CAP);
            assert_eq!(p.width, 4);
            let prev_right = prev.left + prev.width;
            // A zero-power hop from the previous edge lands inside the span.
            assert!(p.left <= prev_right && prev_right <= p.left + p.width);
        }
    }
}

#[test]
fn gap_range_narrows_as_score_grows() {
    let prev = Platform { left: 0, width: 2, index: 0 };
    // At score 0 the whole range [2, 5] is reachable by some draw.
    let mut seen = [false; 4];
    for r1 in 0..8u64 {
        let p = next_platform(&prev, 0, r1, 0);
        let gap = p.left - 2;
        seen[(gap - 2) as usize] = true;
    }
    assert_eq!(seen, [true, true, true, true]);
    // From score 30 on, every draw yields the hardest gap, 5.
    for r1 in 0..8u64 {
        let p = next_platform(&prev, 30, r1, 0);
        assert_eq!(p.left - 2, 5);
    }
    // In between the range has narrowed: score 10 never draws a gap of 2.
    for r1 in 0..8u64 {
        let p = next_platform(&prev, 10, r1, 0);
        assert!(p.left - 2 >= 3);
    }
}

#[test]
fn generator_draws_every_width() {
    let prev = Platform { left: 0, width: 2, index: 0 };
    let mut seen = [false; 3];
    for r2 in 0..6u64 {
        let p = next_platform(&prev, 0, 0, r2);
        seen[(p.width - 2) as usize] = true;
    }
    assert_eq!(seen, [true, true, true]);
}

#[test]
fn camera_eases_and_never_snaps() {
    let mut c = Camera { x: 0, target: 0 };
    c.track(8);
    assert_eq!(c.target, 8);
    assert_eq!(c.x, 2);
    c.track(8);
    assert_eq!(c.x, 3);
    c.track(8);
    assert_eq!(c.x, 4);
    // The camera always trails its target until it converges; it never
    // jumps past it.
    assert!(c.x <= c.target);
}

#[test]
fn camera_ignores_backward_motion() {
    let mut c = Camera { x: 0, target: 0 };
    c.track(8);
    let after_forward = c.x;
    // Backward player motion does not pull the target back.
    c.track(0);
    assert_eq!(c.target, 8);
    assert!(c.x >= after_forward);
}

#[test]
fn timer_advances_saturates_and_resets() {
    let mut t = Timer::new(12);
    assert!(!t.finished());
    t.advance(5);
    assert!(!t.finished());
    assert_eq!(t.elapsed, 5);
    t.advance(7);
    assert!(t.finished());
    // Advancing past the duration saturates.
    t.advance(100);
    assert_eq!(t.elapsed, 12);
    t.reset();
    assert!(!t.finished());
    assert_eq!(t.elapsed, 0);
    // A never-started timer reads as already expired.
    let u = Timer::expired(12);
    assert!(u.finished());
}

#[test]
fn score_up_visuals_age_drift_and_expire() {
    let mut effects: Vec<ScoreUpEffect> = Vec::new();
    let mut queue = vec![ScoreUpEntry { x: 6, y: 0, value: 1 }];
    // Draining the queue spawns one visual per entry, at age zero.
    step_effects(&mut effects, &mut queue, 0);
    assert!(queue.is_empty());
    assert_eq!(effects.len(), 1);
    assert_eq!(effects[0].age, 0);
    assert_eq!(effect_y(&effects[0]), 0);
    // Aging drifts the visual upward, one unit per tick of age.
    step_effects(&mut effects, &mut queue, 29);
    assert_eq!(effects.len(), 1);
    assert_eq!(effects[0].age, 29);
    assert_eq!(effect_y(&effects[0]), 29);
    // Reaching the lifetime destroys it, independently of the queue.
    step_effects(&mut effects, &mut queue, 1);
    assert!(effects.is_empty());
}

#[test]
fn score_up_visuals_age_independently() {
    let mut effects = vec![
        ScoreUpEffect { x: 1, base_y: 0, value: 1, age: 25 },
        ScoreUpEffect { x: 2, base_y: 0, value: 1, age: 0 },
    ];
    let mut queue: Vec<ScoreUpEntry> = Vec::new();
    step_effects(&mut effects, &mut queue, 10);
    // The older visual expired; the younger one lives on, order kept.
    assert_eq!(effects.len(), 1);
    assert_eq!(effects[0].x, 2);
    assert_eq!(effects[0].age, 10);
}
