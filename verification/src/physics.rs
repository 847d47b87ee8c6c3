//! Steering the player and integrating its position.

use vstd::prelude::*;
use crate::actor::Actor;
use crate::geometry::Vec2;
use crate::input::InputState;
use crate::units::{
    ceil_sqrt, elapsed, is_ceil_sqrt, isqrt_ceil, lemma_ceil_sqrt_exists, lemma_over_time_bounds,
    lemma_square_strictly_monotone, magnitude, over_time, trunc_div, COORD_LIMIT, UNIT,
};

verus! {

/// Acceleration of the player while a direction is held, per second squared.
pub const PLAYER_THRUST: i64 = 200_000_000;

/// The most the player's speed may be, per second.
pub const MAX_SPEED: i64 = 250_000_000;

/// How long the walking player shows each image of its walk cycle.
pub const STRIDE: i64 = 250_000;

/// One velocity component after a frame of input on its axis: centred input
/// stops the component dead, a held direction adds thrust to it.
pub open spec fn steer_axis(v: int, axis: int, dt: int) -> int {
    if axis == 0 {
        0
    } else if axis == 1 {
        v + over_time(PLAYER_THRUST as int, dt)
    } else if axis == -1 {
        v - over_time(PLAYER_THRUST as int, dt)
    } else {
        v
    }
}

/// The velocity after a frame of input.
pub open spec fn steered(v: Vec2, input: InputState, dt: int) -> Vec2 {
    Vec2 {
        x: steer_axis(v.x as int, input.xaxis as int, dt) as i64,
        y: steer_axis(v.y as int, input.yaxis as int, dt) as i64,
    }
}

/// The velocity is faster than the player may go.
pub open spec fn over_speed(v: Vec2) -> bool {
    v.norm_sq() > MAX_SPEED * MAX_SPEED
}

/// The velocity rescaled to `MAX_SPEED` if it is faster, else unchanged. The
/// norm is rounded up and each component toward zero, so that the result is
/// never faster than `MAX_SPEED`.
pub open spec fn clamped(v: Vec2) -> Vec2 {
    if over_speed(v) {
        let n = ceil_sqrt(v.norm_sq());
        Vec2 {
            x: trunc_div(v.x * MAX_SPEED, n) as i64,
            y: trunc_div(v.y * MAX_SPEED, n) as i64,
        }
    } else {
        v
    }
}

/// The side that the player faces once it has turned the way it moves:
/// right when it moves right, left when it moves left, and as before when
/// it moves neither way.
pub open spec fn facing_toward(velocity_x: int, facing: i8) -> i8 {
    if velocity_x > 0 {
        1i8
    } else if velocity_x < 0 {
        -1i8
    } else {
        facing
    }
}

/// The player is on the move.
pub open spec fn is_walking(player: Actor) -> bool {
    player.velocity != (Vec2 { x: 0, y: 0 })
}

/// The player's `life` is outside the three bands of the walk cycle, which
/// end at `STRIDE`, `2 * STRIDE` and `3 * STRIDE`.
pub open spec fn stride_over(life: int) -> bool {
    !(0 <= life < 3 * STRIDE) || life == 2 * STRIDE
}

/// The player's `life` once a walk cycle that has run out has restarted:
/// zero if the player walks with its `life` outside the bands, else as it is.
pub open spec fn cycle_restarted(player: Actor) -> i64 {
    if is_walking(player) && stride_over(player.life as int) {
        0
    } else {
        player.life
    }
}

/// Half the screen's width (or height) in whole pixels, as a coordinate.
pub open spec fn half_extent(size: u32) -> int {
    (size / 2) * UNIT
}

/// The point lies outside the arena, whose centre is the origin.
pub open spec fn outside_arena(x: int, y: int, width: u32, height: u32) -> bool {
    ||| x > half_extent(width)
    ||| x < -half_extent(width)
    ||| y > half_extent(height)
    ||| y < -half_extent(height)
}

/// The player after a frame of movement: the speed is clamped, the position
/// integrated, and a step that would leave the arena is not taken at all,
/// the player coming to rest where it stood.
pub open spec fn moved(player: Actor, width: u32, height: u32, dt: int) -> Actor {
    let v = clamped(player.velocity);
    let x = player.pos.x + over_time(v.x as int, dt);
    let y = player.pos.y + over_time(v.y as int, dt);
    if outside_arena(x, y, width, height) {
        Actor { velocity: Vec2 { x: 0, y: 0 }, ..player }
    } else {
        Actor { pos: Vec2 { x: x as i64, y: y as i64 }, velocity: v, ..player }
    }
}

proof fn lemma_floor(x: int, n: int)
    by (nonlinear_arith)
    requires
        0 <= x,
        0 < n,
    ensures
        0 <= x / n,
        (x / n) * n <= x < (x / n) * n + n,
{
}

proof fn lemma_norm_not_above(p: int, q: int, a: int, b: int, m: int, n: int)
    by (nonlinear_arith)
    requires
        0 <= p,
        0 <= q,
        0 < n,
        0 <= m,
        p * n <= a * m,
        q * n <= b * m,
        a * a + b * b <= n * n,
    ensures
        p * p + q * q <= m * m,
{
    assert((p * n) * (p * n) <= (a * m) * (a * m));
    assert((q * n) * (q * n) <= (b * m) * (b * m));
    assert((p * p + q * q) * (n * n) == (p * n) * (p * n) + (q * n) * (q * n));
    assert((a * m) * (a * m) + (b * m) * (b * m) == (a * a + b * b) * (m * m));
    assert((a * a + b * b) * (m * m) <= (n * n) * (m * m));
    assert((p * p + q * q) * (n * n) <= (m * m) * (n * n));
}

proof fn lemma_square_loss(big: int, small: int, n: int)
    by (nonlinear_arith)
    requires
        0 <= small,
        0 <= big,
        0 < n,
        big - n < small,
    ensures
        small * small >= big * big - 2 * big * n,
{
    if big >= n {
        assert(small * small >= (big - n) * (big - n));
    } else {
        assert(big * (big - 2 * n) <= 0);
    }
}

proof fn lemma_sum_below_norm(a: int, b: int, n: int)
    by (nonlinear_arith)
    requires
        0 <= a,
        0 <= b,
        0 <= n,
        a * a + b * b <= n * n,
    ensures
        2 * (a + b) <= 3 * n,
{
    assert((a - b) * (a - b) >= 0);
    assert((a + b) * (a + b) <= 2 * (n * n));
    if 2 * (a + b) > 3 * n {
        assert((2 * (a + b)) * (2 * (a + b)) > (3 * n) * (3 * n));
    }
}

proof fn lemma_norm_not_far_below(p: int, q: int, a: int, b: int, m: int, n: int)
    requires
        0 <= p,
        0 <= q,
        0 <= a,
        0 <= b,
        9 <= m < n,
        a * m - n < p * n,
        b * m - n < q * n,
        (n - 1) * (n - 1) < a * a + b * b <= n * n,
    ensures
        (m - 3) * (m - 3) <= p * p + q * q,
{
    let big_a = a * m;
    let big_b = b * m;
    assert(0 <= big_a) by (nonlinear_arith)
        requires
            0 <= a,
            0 <= m,
            big_a == a * m,
    ;
    assert(0 <= big_b) by (nonlinear_arith)
        requires
            0 <= b,
            0 <= m,
            big_b == b * m,
    ;
    assert(0 <= p * n && 0 <= q * n) by (nonlinear_arith)
        requires
            0 <= p,
            0 <= q,
            0 < n,
    ;
    lemma_square_loss(big_a, p * n, n);
    lemma_square_loss(big_b, q * n, n);
    lemma_sum_below_norm(a, b, n);
    let s = a * a + b * b;
    // n^2 (p^2 + q^2) >= m^2 s - 2 n m (a + b)
    assert((p * p + q * q) * (n * n) == (p * n) * (p * n) + (q * n) * (q * n))
        by (nonlinear_arith);
    assert(big_a * big_a + big_b * big_b == m * m * s) by (nonlinear_arith)
        requires
            big_a == a * m,
            big_b == b * m,
            s == a * a + b * b,
    ;
    assert(2 * big_a * n + 2 * big_b * n == 2 * n * m * (a + b)) by (nonlinear_arith)
        requires
            big_a == a * m,
            big_b == b * m,
    ;
    assert((p * p + q * q) * (n * n) >= m * m * s - 2 * n * m * (a + b));
    assert(2 * n * m * (a + b) <= 3 * n * n * m) by (nonlinear_arith)
        requires
            2 * (a + b) <= 3 * n,
            0 < n,
            0 < m,
    ;
    assert(m * m * s >= m * m * ((n - 1) * (n - 1) + 1)) by (nonlinear_arith)
        requires
            s >= (n - 1) * (n - 1) + 1,
    ;
    assert(m * m * ((n - 1) * (n - 1) + 1) - 3 * n * n * m >= (n * n) * ((m - 3) * (m - 3)))
        by (nonlinear_arith)
        requires
            9 <= m,
            m + 1 <= n,
    ;
    assert((p * p + q * q) * (n * n) >= ((m - 3) * (m - 3)) * (n * n));
    assert(p * p + q * q >= (m - 3) * (m - 3)) by (nonlinear_arith)
        requires
            (p * p + q * q) * (n * n) >= ((m - 3) * (m - 3)) * (n * n),
            0 < n,
    ;
}

proof fn lemma_quotient_bound(k: int, a: int, m: int, n: int)
    by (nonlinear_arith)
    requires
        0 <= a <= n,
        0 < m,
        0 < n,
        k * n <= a * m,
    ensures
        k <= m,
{
    assert(a * m <= n * m);
    if k > m {
        assert(k * n >= (m + 1) * n);
    }
}

/// What clamping yields on one component: the magnitude is scaled down and
/// rounded toward zero, the sign kept.
proof fn lemma_component(c: int, n: int)
    requires
        magnitude(c) <= n,
        MAX_SPEED < n,
    ensures
        magnitude(trunc_div(c * MAX_SPEED, n)) == (magnitude(c) * MAX_SPEED) / n,
        magnitude(trunc_div(c * MAX_SPEED, n)) <= MAX_SPEED,
        c >= 0 ==> trunc_div(c * MAX_SPEED, n) >= 0,
        c <= 0 ==> trunc_div(c * MAX_SPEED, n) <= 0,
{
    let m = MAX_SPEED as int;
    let a = magnitude(c);
    lemma_floor(a * m, n);
    lemma_quotient_bound((a * m) / n, a, m, n);
    if c > 0 {
        assert(c * m >= 0) by (nonlinear_arith)
            requires
                c > 0,
                m > 0,
        ;
    } else if c == 0 {
        assert(c * m == 0) by (nonlinear_arith)
            requires
                c == 0,
        ;
        assert(a * m == 0) by (nonlinear_arith)
            requires
                a == 0,
        ;
    } else {
        assert(c * m < 0 && -(c * m) == a * m) by (nonlinear_arith)
            requires
                c < 0,
                m > 0,
                a == -c,
        ;
    }
}

/// The rounded-up norm of a velocity is no smaller than either component,
/// and larger than `MAX_SPEED` when the velocity is over speed.
proof fn lemma_norm_bounds_components(v: Vec2)
    ensures
        is_ceil_sqrt(v.norm_sq(), ceil_sqrt(v.norm_sq())),
        magnitude(v.x as int) <= ceil_sqrt(v.norm_sq()),
        magnitude(v.y as int) <= ceil_sqrt(v.norm_sq()),
        magnitude(v.x as int) * magnitude(v.x as int) + magnitude(v.y as int) * magnitude(
            v.y as int,
        ) == v.norm_sq(),
        over_speed(v) ==> MAX_SPEED < ceil_sqrt(v.norm_sq()),
        !over_speed(v) ==> v.within(MAX_SPEED as int),
{
    let m = MAX_SPEED as int;
    let a = magnitude(v.x as int);
    let b = magnitude(v.y as int);
    assert(a * a == v.x * v.x && b * b == v.y * v.y) by (nonlinear_arith)
        requires
            a == magnitude(v.x as int),
            b == magnitude(v.y as int),
    ;
    assert(0 <= a * a && 0 <= b * b) by (nonlinear_arith);
    lemma_ceil_sqrt_exists(v.norm_sq());
    let n = ceil_sqrt(v.norm_sq());
    if a > n {
        lemma_square_strictly_monotone(n, a);
    }
    if b > n {
        lemma_square_strictly_monotone(n, b);
    }
    if over_speed(v) {
        if n < m {
            lemma_square_strictly_monotone(n, m);
        }
    } else {
        if a > m {
            lemma_square_strictly_monotone(m, a);
        }
        if b > m {
            lemma_square_strictly_monotone(m, b);
        }
    }
}

/// Clamping never leaves the speed above `MAX_SPEED`; a velocity that was
/// faster comes out within three millionths of a pixel per second of
/// `MAX_SPEED`, the most that rounding can take; one that was not is kept.
pub proof fn lemma_clamped_speed(v: Vec2)
    ensures
        clamped(v).norm_sq() <= MAX_SPEED * MAX_SPEED,
        clamped(v).within(MAX_SPEED as int),
        over_speed(v) ==> (MAX_SPEED - 3) * (MAX_SPEED - 3) <= clamped(v).norm_sq(),
        !over_speed(v) ==> clamped(v) == v,
{
    lemma_norm_bounds_components(v);
    if over_speed(v) {
        let m = MAX_SPEED as int;
        let n = ceil_sqrt(v.norm_sq());
        let a = magnitude(v.x as int);
        let b = magnitude(v.y as int);
        lemma_component(v.x as int, n);
        lemma_component(v.y as int, n);
        let cx = trunc_div(v.x * MAX_SPEED, n);
        let cy = trunc_div(v.y * MAX_SPEED, n);
        let p = magnitude(cx);
        let q = magnitude(cy);
        assert(clamped(v).x == cx && clamped(v).y == cy);
        assert(cx * cx == p * p && cy * cy == q * q) by (nonlinear_arith)
            requires
                p == magnitude(cx),
                q == magnitude(cy),
        ;
        assert(0 <= a * m && 0 <= b * m) by (nonlinear_arith)
            requires
                0 <= a,
                0 <= b,
                0 < m,
        ;
        lemma_floor(a * m, n);
        lemma_floor(b * m, n);
        lemma_norm_not_above(p, q, a, b, m, n);
        lemma_norm_not_far_below(p, q, a, b, m, n);
    }
}

fn rescale(c: i64, n: u128) -> (r: i64)
    requires
        magnitude(c as int) <= n <= 0x1_0000_0000_0000_0000,
        MAX_SPEED < n,
    ensures
        r == trunc_div(c * MAX_SPEED, n as int),
{
    proof {
        lemma_component(c as int, n as int);
    }
    assert(-0x1000_0000_0000_0000_0000_0000 <= c * MAX_SPEED <= 0x1000_0000_0000_0000_0000_0000)
        by (nonlinear_arith)
        requires
            -0x8000_0000_0000_0000 <= c <= 0x8000_0000_0000_0000,
            MAX_SPEED == 250_000_000,
    ;
    let product: i128 = c as i128 * MAX_SPEED as i128;
    let quotient: i128 = product / (n as i128);
    quotient as i64
}

/// Caps the speed at `MAX_SPEED`, keeping the direction.
pub fn clamp_speed(v: Vec2) -> (r: Vec2)
    ensures
        r == clamped(v),
        r.norm_sq() <= MAX_SPEED * MAX_SPEED,
        r.within(MAX_SPEED as int),
        over_speed(v) ==> (MAX_SPEED - 3) * (MAX_SPEED - 3) <= r.norm_sq(),
{
    proof {
        lemma_clamped_speed(v);
        lemma_norm_bounds_components(v);
    }
    let s = v.norm_squared();
    if s > 62_500_000_000_000_000 {
        let n = isqrt_ceil(s);
        Vec2 { x: rescale(v.x, n), y: rescale(v.y, n) }
    } else {
        v
    }
}

/// Turns a frame of held directions into velocity: a centred axis stops its
/// component at once, a held one gains thrust for the frame's time.
pub fn player_handle_input(actor: &mut Actor, input: &InputState, dt: u32)
    requires
        old(actor).velocity.within(COORD_LIMIT as int),
    ensures
        *final(actor) == (Actor {
            velocity: steered(old(actor).velocity, *input, dt as int),
            ..*old(actor)
        }),
        final(actor).velocity.within(2 * COORD_LIMIT),
{
    let gain = elapsed(PLAYER_THRUST, dt);
    proof {
        lemma_over_time_bounds(PLAYER_THRUST as int, dt as int, PLAYER_THRUST as int);
    }
    if input.xaxis == 0 {
        actor.velocity.x = 0;
    } else if input.xaxis == 1 {
        actor.velocity.x = actor.velocity.x + gain;
    } else if input.xaxis == -1 {
        actor.velocity.x = actor.velocity.x - gain;
    }
    if input.yaxis == 0 {
        actor.velocity.y = 0;
    } else if input.yaxis == 1 {
        actor.velocity.y = actor.velocity.y + gain;
    } else if input.yaxis == -1 {
        actor.velocity.y = actor.velocity.y - gain;
    }
}

/// Restarts the walk cycle of a player that walks with its `life` outside
/// the bands of the cycle.
pub fn restart_walk_cycle(player: &mut Actor)
    ensures
        *final(player) == (Actor { life: cycle_restarted(*old(player)), ..*old(player) }),
{
    let walking = player.velocity.x != 0 || player.velocity.y != 0;
    let in_cycle = 0 <= player.life && player.life < 3 * STRIDE && player.life != 2 * STRIDE;
    if walking && !in_cycle {
        player.life = 0;
    }
}

/// Turns the player the way it moves.
pub fn face_movement(player: &mut Actor)
    ensures
        *final(player) == (Actor {
            facing: facing_toward(old(player).velocity.x as int, old(player).facing),
            ..*old(player)
        }),
{
    if player.velocity.x > 0 {
        player.facing = 1;
    } else if player.velocity.x < 0 {
        player.facing = -1;
    }
}

/// Half of a screen dimension, as a coordinate.
pub fn half_extent_of(size: u32) -> (r: i64)
    ensures
        r == half_extent(size),
        0 <= r <= 2_147_483_647_000_000,
{
    (size / 2) as i64 * UNIT
}

/// Moves the player for one frame.
///
/// The velocity is clamped to `MAX_SPEED` first. If the step would end
/// outside the arena the player does not move and loses all velocity.
pub fn update_player_position(player: &mut Actor, width: u32, height: u32, dt: u32)
    requires
        old(player).pos.within(COORD_LIMIT as int),
    ensures
        *final(player) == moved(*old(player), width, height, dt as int),
        final(player).pos.within(COORD_LIMIT as int),
        final(player).velocity.norm_sq() <= MAX_SPEED * MAX_SPEED,
        final(player).velocity.within(MAX_SPEED as int),
        final(player).pos != old(player).pos ==> !outside_arena(
            final(player).pos.x as int,
            final(player).pos.y as int,
            width,
            height,
        ),
        outside_arena(
            old(player).pos.x + over_time(clamped(old(player).velocity).x as int, dt as int),
            old(player).pos.y + over_time(clamped(old(player).velocity).y as int, dt as int),
            width,
            height,
        ) ==> final(player).pos == old(player).pos && final(player).velocity == (Vec2 {
            x: 0,
            y: 0,
        }),
{
    let v = clamp_speed(player.velocity);
    proof {
        lemma_over_time_bounds(v.x as int, dt as int, MAX_SPEED as int);
        lemma_over_time_bounds(v.y as int, dt as int, MAX_SPEED as int);
    }
    let x = player.pos.x + elapsed(v.x, dt);
    let y = player.pos.y + elapsed(v.y, dt);
    let half_w = half_extent_of(width);
    let half_h = half_extent_of(height);
    if x > half_w || x < -half_w || y > half_h || y < -half_h {
        player.velocity = Vec2 { x: 0, y: 0 };
    } else {
        player.pos = Vec2 { x, y };
        player.velocity = v;
    }
}

} // verus!
