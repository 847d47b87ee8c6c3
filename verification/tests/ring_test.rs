use highfives::actor::{create_goal_ring, create_ring, Actor};
use highfives::geometry::Vec2;
use highfives::ring::{
    judge_rings, shrink_ring, RingOutcome, HIT_WINDOW, RING_LOWER, RING_UPPER,
};
use highfives::units::UNIT;

fn ring(scale: i64, speed: i64) -> Actor {
    let mut r = create_ring();
    r.scale = Vec2::new(scale, scale);
    r.velocity = Vec2::new(speed, speed);
    r
}

fn goal(scale: i64) -> Actor {
    let mut g = create_goal_ring();
    g.scale = Vec2::new(scale, scale);
    g
}

#[test]
fn ring_constants_are_in_millionths() {
    assert_eq!(RING_LOWER, UNIT / 100);
    assert_eq!(RING_UPPER, UNIT);
    assert_eq!(HIT_WINDOW, UNIT / 10);
}

#[test]
fn shrinking_ring_loses_scale_on_both_axes() {
    let mut r = ring(UNIT, 1_500_000);
    shrink_ring(&mut r, 100_000);
    assert_eq!(r.scale, Vec2::new(850_000, 850_000));
    assert_eq!(r.velocity, Vec2::new(1_500_000, 1_500_000));
}

#[test]
fn ring_oscillates_between_its_bounds() {
    let mut r = ring(UNIT, 1_500_000);
    let mut previous = r.scale.x;
    let mut frames = 0;
    // shrinks monotonically until it has crossed the lower bound
    while r.velocity.x > 0 {
        shrink_ring(&mut r, 100_000);
        assert!(r.scale.x < previous);
        assert_eq!(r.scale.x, r.scale.y);
        if r.velocity.x > 0 {
            assert!(r.scale.x >= RING_LOWER);
        }
        previous = r.scale.x;
        frames += 1;
        assert!(frames <= 7);
    }
    assert_eq!(frames, 7);
    assert_eq!(r.scale, Vec2::new(-50_000, -50_000));
    assert_eq!(r.velocity, Vec2::new(-1_500_000, -1_500_000));
    // then grows monotonically until it has crossed the upper bound
    frames = 0;
    while r.velocity.x < 0 {
        shrink_ring(&mut r, 100_000);
        assert!(r.scale.x > previous);
        if r.velocity.x < 0 {
            assert!(r.scale.x <= RING_UPPER);
        }
        previous = r.scale.x;
        frames += 1;
        assert!(frames <= 8);
    }
    assert_eq!(frames, 8);
    assert_eq!(r.scale, Vec2::new(1_150_000, 1_150_000));
    assert_eq!(r.velocity, Vec2::new(1_500_000, 1_500_000));
    // and shrinks again
    shrink_ring(&mut r, 100_000);
    assert_eq!(r.scale, Vec2::new(UNIT, UNIT));
}

#[test]
fn ring_turns_only_after_crossing_the_bound() {
    // lands exactly on the lower bound: no turn yet
    let mut r = ring(RING_LOWER + 100_000, UNIT);
    shrink_ring(&mut r, 100_000);
    assert_eq!(r.scale.x, RING_LOWER);
    assert_eq!(r.velocity.x, UNIT);
    shrink_ring(&mut r, 1);
    assert_eq!(r.scale.x, RING_LOWER - 1);
    assert_eq!(r.velocity, Vec2::new(-UNIT, -UNIT));
    // lands exactly on the upper bound: no turn yet
    let mut g = ring(RING_UPPER - 100_000, -UNIT);
    shrink_ring(&mut g, 100_000);
    assert_eq!(g.scale.x, RING_UPPER);
    assert_eq!(g.velocity.x, -UNIT);
    shrink_ring(&mut g, 1);
    assert_eq!(g.scale.x, RING_UPPER + 1);
    assert_eq!(g.velocity, Vec2::new(UNIT, UNIT));
}

#[test]
fn ring_without_velocity_stays() {
    let before = ring(500_000, 0);
    let mut r = before;
    shrink_ring(&mut r, 1_000_000);
    assert_eq!(r, before);
}

#[test]
fn ring_step_follows_velocity_x_only() {
    let mut r = create_ring();
    r.scale = Vec2::new(900_000, 800_000);
    r.velocity = Vec2::new(UNIT, 5 * UNIT);
    shrink_ring(&mut r, 100_000);
    assert_eq!(r.scale, Vec2::new(800_000, 700_000));
    assert_eq!(r.velocity, Vec2::new(UNIT, 5 * UNIT));
}

#[test]
fn press_within_the_window_is_a_hit() {
    assert_eq!(judge_rings(&ring(450_000, UNIT), &goal(500_000), true), RingOutcome::Hit);
    assert_eq!(judge_rings(&ring(550_000, UNIT), &goal(500_000), true), RingOutcome::Hit);
    assert_eq!(judge_rings(&ring(500_000, UNIT), &goal(500_000), true), RingOutcome::Hit);
}

#[test]
fn press_outside_the_window_is_a_miss() {
    assert_eq!(judge_rings(&ring(200_000, UNIT), &goal(500_000), true), RingOutcome::Miss);
    assert_eq!(judge_rings(&ring(900_000, UNIT), &goal(500_000), true), RingOutcome::Miss);
}

#[test]
fn the_window_includes_its_edge() {
    assert_eq!(judge_rings(&ring(400_000, UNIT), &goal(500_000), true), RingOutcome::Hit);
    assert_eq!(judge_rings(&ring(600_000, UNIT), &goal(500_000), true), RingOutcome::Hit);
    assert_eq!(judge_rings(&ring(399_999, UNIT), &goal(500_000), true), RingOutcome::Miss);
    assert_eq!(judge_rings(&ring(600_001, UNIT), &goal(500_000), true), RingOutcome::Miss);
}

#[test]
fn nothing_is_judged_while_the_button_is_up() {
    assert_eq!(judge_rings(&ring(500_000, UNIT), &goal(500_000), false), RingOutcome::Pending);
    assert_eq!(judge_rings(&ring(100_000, UNIT), &goal(500_000), false), RingOutcome::Pending);
}

#[test]
fn judging_takes_the_largest_scales() {
    assert_eq!(judge_rings(&ring(i64::MAX, 0), &goal(i64::MIN), true), RingOutcome::Miss);
    assert_eq!(judge_rings(&ring(i64::MIN, 0), &goal(i64::MIN + 5), true), RingOutcome::Hit);
}
