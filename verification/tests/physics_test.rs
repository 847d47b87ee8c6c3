use highfives::actor::{create_player, Actor};
use highfives::geometry::Vec2;
use highfives::input::InputState;
use highfives::physics::{
    clamp_speed, face_movement, half_extent_of, player_handle_input, restart_walk_cycle,
    update_player_position, MAX_SPEED, PLAYER_THRUST, STRIDE,
};
use highfives::units::UNIT;

fn player_with(pos: Vec2, velocity: Vec2) -> Actor {
    let mut p = create_player();
    p.pos = pos;
    p.velocity = velocity;
    p
}

fn held(xaxis: i8, yaxis: i8) -> InputState {
    InputState { xaxis, yaxis, fire: false, any_key: false }
}

fn norm_sq(v: Vec2) -> i128 {
    (v.x as i128) * (v.x as i128) + (v.y as i128) * (v.y as i128)
}

#[test]
fn constants_are_in_millionths() {
    assert_eq!(PLAYER_THRUST, 200 * UNIT);
    assert_eq!(MAX_SPEED, 250 * UNIT);
}

#[test]
fn held_direction_accumulates_thrust() {
    let mut p = player_with(Vec2::new(0, 0), Vec2::new(0, 0));
    player_handle_input(&mut p, &held(1, 0), 16_667);
    assert_eq!(p.velocity, Vec2::new(3_333_400, 0));
    player_handle_input(&mut p, &held(1, 0), 16_667);
    assert_eq!(p.velocity, Vec2::new(6_666_800, 0));
    player_handle_input(&mut p, &held(-1, 1), 1_000_000);
    assert_eq!(p.velocity, Vec2::new(6_666_800 - 200 * UNIT, 200 * UNIT));
}

#[test]
fn centred_axis_stops_its_component_at_once() {
    let mut p = player_with(Vec2::new(0, 0), Vec2::new(123 * UNIT, -45 * UNIT));
    player_handle_input(&mut p, &held(0, -1), 10_000);
    assert_eq!(p.velocity, Vec2::new(0, -45 * UNIT - 2 * UNIT));
    player_handle_input(&mut p, &held(0, 0), 10_000);
    assert_eq!(p.velocity, Vec2::new(0, 0));
}

#[test]
fn input_changes_nothing_but_velocity() {
    let before = player_with(Vec2::new(5, 6), Vec2::new(7, 8));
    let mut p = before;
    player_handle_input(&mut p, &held(1, 1), 1000);
    assert_eq!(p, Actor { velocity: Vec2::new(7 + 200_000, 8 + 200_000), ..before });
}

#[test]
fn axis_value_out_of_range_is_ignored() {
    let mut p = player_with(Vec2::new(0, 0), Vec2::new(11, 22));
    player_handle_input(&mut p, &held(2, -7), 16_667);
    assert_eq!(p.velocity, Vec2::new(11, 22));
}

#[test]
fn clamp_rescales_to_max_speed() {
    assert_eq!(
        clamp_speed(Vec2::new(300 * UNIT, 400 * UNIT)),
        Vec2::new(150 * UNIT, 200 * UNIT)
    );
    assert_eq!(
        clamp_speed(Vec2::new(-300 * UNIT, -400 * UNIT)),
        Vec2::new(-150 * UNIT, -200 * UNIT)
    );
    assert_eq!(clamp_speed(Vec2::new(0, 251 * UNIT)), Vec2::new(0, 250 * UNIT));
    assert_eq!(clamp_speed(Vec2::new(-1000 * UNIT, 0)), Vec2::new(-250 * UNIT, 0));
}

#[test]
fn clamp_keeps_what_is_not_too_fast() {
    let at_limit = Vec2::new(250 * UNIT, 0);
    assert_eq!(clamp_speed(at_limit), at_limit);
    let diagonal = Vec2::new(150 * UNIT, -200 * UNIT);
    assert_eq!(clamp_speed(diagonal), diagonal);
    assert_eq!(clamp_speed(Vec2::new(0, 0)), Vec2::new(0, 0));
}

#[test]
fn clamp_rounds_toward_zero() {
    // norm rounds up to 250_000_001
    assert_eq!(clamp_speed(Vec2::new(250 * UNIT, 1)), Vec2::new(249_999_999, 0));
}

#[test]
fn clamped_speed_is_max_speed_up_to_rounding() {
    let inputs = [
        Vec2::new(123_456_789, 987_654_321),
        Vec2::new(-250_000_000, 250_000_000),
        Vec2::new(1, -250_000_001),
        Vec2::new(858_993_459_000, -858_993_459_000),
        Vec2::new(i64::MAX, i64::MIN),
        Vec2::new(i64::MIN, 3),
    ];
    let max = MAX_SPEED as i128;
    for v in inputs {
        let c = clamp_speed(v);
        assert!(norm_sq(c) <= max * max, "{:?} -> {:?}", v, c);
        assert!(norm_sq(c) >= (max - 3) * (max - 3), "{:?} -> {:?}", v, c);
        assert_eq!(c.x.signum() * v.x.signum() >= 0, true);
        assert_eq!(c.y.signum() * v.y.signum() >= 0, true);
    }
}

#[test]
fn half_extent_halves_whole_pixels() {
    assert_eq!(half_extent_of(1280), 640 * UNIT);
    assert_eq!(half_extent_of(1281), 640 * UNIT);
    assert_eq!(half_extent_of(0), 0);
    assert_eq!(half_extent_of(u32::MAX), 2_147_483_647 * UNIT);
}

#[test]
fn position_integrates_velocity() {
    let mut p = player_with(Vec2::new(0, 0), Vec2::new(100 * UNIT, -50 * UNIT));
    update_player_position(&mut p, 1280, 720, 500_000);
    assert_eq!(p.pos, Vec2::new(50 * UNIT, -25 * UNIT));
    assert_eq!(p.velocity, Vec2::new(100 * UNIT, -50 * UNIT));
}

#[test]
fn position_update_clamps_velocity_first() {
    let mut p = player_with(Vec2::new(0, 0), Vec2::new(300 * UNIT, 400 * UNIT));
    update_player_position(&mut p, 1280, 720, 1_000_000);
    assert_eq!(p.velocity, Vec2::new(150 * UNIT, 200 * UNIT));
    assert_eq!(p.pos, Vec2::new(150 * UNIT, 200 * UNIT));
}

#[test]
fn leaving_the_arena_reverts_position_and_zeroes_velocity() {
    let starts = [
        (Vec2::new(639 * UNIT, 0), Vec2::new(250 * UNIT, 0)),
        (Vec2::new(-639 * UNIT, 0), Vec2::new(-250 * UNIT, 0)),
        (Vec2::new(0, 359 * UNIT), Vec2::new(0, 250 * UNIT)),
        (Vec2::new(0, -359 * UNIT), Vec2::new(0, -250 * UNIT)),
        (Vec2::new(639 * UNIT, 100 * UNIT), Vec2::new(200 * UNIT, -100 * UNIT)),
    ];
    for (pos, velocity) in starts {
        let before = player_with(pos, velocity);
        let mut p = before;
        update_player_position(&mut p, 1280, 720, 16_667);
        assert_eq!(p, Actor { velocity: Vec2::new(0, 0), ..before });
    }
}

#[test]
fn the_arena_edge_itself_is_inside() {
    let mut p = player_with(Vec2::new(640 * UNIT - 4_166_750, 0), Vec2::new(250 * UNIT, 0));
    update_player_position(&mut p, 1280, 720, 16_667);
    assert_eq!(p.pos, Vec2::new(640 * UNIT, 0));
    assert_eq!(p.velocity, Vec2::new(250 * UNIT, 0));
    // one millionth further is outside
    let mut q = player_with(Vec2::new(640 * UNIT - 4_166_749, 0), Vec2::new(250 * UNIT, 0));
    update_player_position(&mut q, 1280, 720, 16_667);
    assert_eq!(q.pos, Vec2::new(640 * UNIT - 4_166_749, 0));
    assert_eq!(q.velocity, Vec2::new(0, 0));
}

#[test]
fn a_player_outside_the_arena_cannot_move_within_the_outside() {
    // the start position (500, 0) is outside an arena 800 wide
    let before = player_with(Vec2::new(500 * UNIT, 0), Vec2::new(-100 * UNIT, 0));
    let mut p = before;
    update_player_position(&mut p, 800, 720, 16_667);
    assert_eq!(p, Actor { velocity: Vec2::new(0, 0), ..before });
}

#[test]
fn player_faces_the_way_it_moves() {
    let cases: [(i64, i8, i8); 6] =
        [(1, -1, 1), (1, 1, 1), (-1, 1, -1), (-1, -1, -1), (0, 1, 1), (0, -1, -1)];
    for (vx, facing, expected) in cases {
        let mut before = player_with(Vec2::new(3, 4), Vec2::new(vx, 7));
        before.facing = facing;
        let mut p = before;
        face_movement(&mut p);
        assert_eq!(p, Actor { facing: expected, ..before });
    }
}

#[test]
fn walk_cycle_restarts_outside_its_bands() {
    assert_eq!(STRIDE, UNIT / 4);
    let cases: [(i64, i64); 9] = [
        (0, 0),
        (249_999, 249_999),
        (250_000, 250_000),
        (499_999, 499_999),
        (500_000, 0),
        (500_001, 500_001),
        (749_999, 749_999),
        (750_000, 0),
        (-1, 0),
    ];
    for (life, expected) in cases {
        let mut before = player_with(Vec2::new(0, 0), Vec2::new(0, -2));
        before.life = life;
        let mut p = before;
        restart_walk_cycle(&mut p);
        assert_eq!(p, Actor { life: expected, ..before }, "life {}", life);
    }
}

#[test]
fn walk_cycle_of_a_standing_player_is_left_alone() {
    for life in [-1, 0, 500_000, 750_000, 10 * UNIT, i64::MAX] {
        let mut before = player_with(Vec2::new(0, 0), Vec2::new(0, 0));
        before.life = life;
        let mut p = before;
        restart_walk_cycle(&mut p);
        assert_eq!(p, before);
    }
}
