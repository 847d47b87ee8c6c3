//! The ring-matching mini-game: an indicator ring that shrinks and grows, and
//! the judgement of a button press against the goal ring.

use vstd::prelude::*;
use crate::actor::Actor;
use crate::geometry::Vec2;
use crate::units::{
    elapsed, lemma_over_time_bounds, magnitude, over_time, COORD_LIMIT, RATE_LIMIT, UNIT,
};

verus! {

/// Scale below which a shrinking ring turns round.
pub const RING_LOWER: i64 = 10_000;

/// Scale above which a growing ring turns round.
pub const RING_UPPER: i64 = 1_000_000;

/// The widest gap between indicator and goal that still counts as a hit.
pub const HIT_WINDOW: i64 = 100_000;

/// A new game's shrink speed is drawn from `SHRINK_SPEED_MIN` (inclusive) to
/// `SHRINK_SPEED_MAX` (exclusive).
pub const SHRINK_SPEED_MIN: i64 = 1_200_000;

pub const SHRINK_SPEED_MAX: i64 = 2_300_000;

/// A new game's goal scale is drawn from `GOAL_SCALE_MIN` (inclusive) to
/// `GOAL_SCALE_MAX` (exclusive).
pub const GOAL_SCALE_MIN: i64 = 200_000;

pub const GOAL_SCALE_MAX: i64 = 800_000;

/// The furthest a ring at full speed can overshoot a bound in one frame.
pub const RING_SWING: i64 = 10_000_000_000;

/// How a frame of the mini-game ended.
#[derive(Clone, Copy, Debug, PartialEq, Eq, Structural)]
pub enum RingOutcome {
    /// The button is not pressed; the ring keeps moving.
    Pending,
    /// Pressed with the indicator on the goal.
    Hit,
    /// Pressed with the indicator off the goal.
    Miss,
}

/// The ring with both velocity components negated.
pub open spec fn turned(ring: Actor) -> Actor {
    Actor {
        velocity: Vec2 { x: (-ring.velocity.x) as i64, y: (-ring.velocity.y) as i64 },
        ..ring
    }
}

/// The ring after `dt` microseconds. Its scale moves against the sign of
/// `velocity.x` on both axes; having passed below `RING_LOWER` while
/// shrinking, or above `RING_UPPER` while growing, it turns round. A ring
/// without velocity stays as it is.
pub open spec fn shrunk(ring: Actor, dt: int) -> Actor {
    let step = over_time(ring.velocity.x as int, dt);
    let stepped = Actor {
        scale: Vec2 { x: (ring.scale.x - step) as i64, y: (ring.scale.y - step) as i64 },
        ..ring
    };
    if ring.velocity.x > 0 {
        if stepped.scale.x < RING_LOWER {
            turned(stepped)
        } else {
            stepped
        }
    } else if ring.velocity.x < 0 {
        if stepped.scale.x > RING_UPPER {
            turned(stepped)
        } else {
            stepped
        }
    } else {
        ring
    }
}

/// What every indicator ring of a running game satisfies: it moves no faster
/// than a game can set it, is as wide as it is high, and is on the side of
/// each bound from which it has not yet turned.
pub open spec fn ring_in_play(ring: Actor) -> bool {
    &&& ring.velocity.within(SHRINK_SPEED_MAX as int)
    &&& ring.scale.x == ring.scale.y
    &&& RING_LOWER - RING_SWING <= ring.scale.x <= RING_UPPER + RING_SWING
    &&& ring.velocity.x > 0 ==> RING_LOWER <= ring.scale.x
    &&& ring.velocity.x < 0 ==> ring.scale.x <= RING_UPPER
}

/// The verdict on a frame: none while the button is up, else a hit exactly
/// when the two scales differ by no more than `HIT_WINDOW`.
pub open spec fn judged(indicator: Actor, goal: Actor, fire: bool) -> RingOutcome {
    if !fire {
        RingOutcome::Pending
    } else if magnitude(indicator.scale.x - goal.scale.x) <= HIT_WINDOW {
        RingOutcome::Hit
    } else {
        RingOutcome::Miss
    }
}

/// A shrinking ring never grows and a growing ring never shrinks, and
/// either moves in earnest once its rate over the frame comes to a millionth;
/// the ring turns round exactly when the step has carried it past the bound
/// ahead, and otherwise keeps its velocity.
pub proof fn lemma_ring_oscillates(ring: Actor, dt: int)
    requires
        0 <= dt <= u32::MAX,
        ring.velocity.within(RATE_LIMIT as int),
        ring.scale.within(COORD_LIMIT as int),
    ensures
        ring.velocity.x > 0 ==> shrunk(ring, dt).scale.x <= ring.scale.x,
        ring.velocity.x * dt >= UNIT ==> shrunk(ring, dt).scale.x < ring.scale.x,
        ring.velocity.x * dt <= -UNIT ==> shrunk(ring, dt).scale.x > ring.scale.x,
        ring.velocity.x > 0 ==> (shrunk(ring, dt).velocity.x < 0 <==> shrunk(ring, dt).scale.x
            < RING_LOWER),
        ring.velocity.x < 0 ==> shrunk(ring, dt).scale.x >= ring.scale.x,
        ring.velocity.x < 0 ==> (shrunk(ring, dt).velocity.x > 0 <==> shrunk(ring, dt).scale.x
            > RING_UPPER),
        shrunk(ring, dt).velocity == ring.velocity || shrunk(ring, dt).velocity == turned(
            ring,
        ).velocity,
        ring_in_play(ring) ==> ring_in_play(shrunk(ring, dt)),
{
    lemma_over_time_bounds(ring.velocity.x as int, dt, RATE_LIMIT as int);
    if ring_in_play(ring) {
        lemma_over_time_bounds(ring.velocity.x as int, dt, SHRINK_SPEED_MAX as int);
    }
}

/// The ring after `n` frames of `dt` microseconds each.
pub open spec fn shrunk_for(ring: Actor, dt: int, n: nat) -> Actor
    decreases n,
{
    if n == 0 {
        ring
    } else {
        shrunk(shrunk_for(ring, dt, (n - 1) as nat), dt)
    }
}

/// A shrinking ring in play loses the same step of scale every frame for
/// as long as it has not passed below `RING_LOWER`; the frame that takes
/// it below turns it round, and from then on its scale rises.
///
/// `n` counts frames up to and including the first that ends below
/// `RING_LOWER`, if there is one.
pub proof fn lemma_ring_shrinks_until_it_turns(ring: Actor, dt: int, n: nat)
    requires
        0 <= dt <= u32::MAX,
        ring_in_play(ring),
        ring.velocity.x > 0,
        n > 0 ==> ring.scale.x - (n - 1) * over_time(ring.velocity.x as int, dt) >= RING_LOWER,
    ensures
        ring_in_play(shrunk_for(ring, dt, n)),
        shrunk_for(ring, dt, n).scale.x == ring.scale.x - n * over_time(
            ring.velocity.x as int,
            dt,
        ),
        shrunk_for(ring, dt, n).scale.x <= ring.scale.x,
        shrunk_for(ring, dt, n).scale.x >= RING_LOWER ==> shrunk_for(ring, dt, n).velocity
            == ring.velocity,
        shrunk_for(ring, dt, n).scale.x < RING_LOWER ==> shrunk_for(ring, dt, n).velocity
            == turned(ring).velocity && shrunk(shrunk_for(ring, dt, n), dt).scale.x >= shrunk_for(
            ring,
            dt,
            n,
        ).scale.x,
    decreases n,
{
    let step = over_time(ring.velocity.x as int, dt);
    lemma_over_time_bounds(ring.velocity.x as int, dt, SHRINK_SPEED_MAX as int);
    if n == 0 {
        assert(0 * step == 0);
    } else {
        let m = (n - 1) as nat;
        assert(m * step >= 0 && n * step == m * step + step) by (nonlinear_arith)
            requires
                n == m + 1,
                step >= 0,
                m >= 0,
        ;
        if m > 0 {
            assert((m - 1) * step <= m * step) by (nonlinear_arith)
                requires
                    step >= 0,
            ;
        }
        lemma_ring_shrinks_until_it_turns(ring, dt, m);
        let before = shrunk_for(ring, dt, m);
        assert(before.velocity == ring.velocity);
        lemma_ring_oscillates(before, dt);
        let after = shrunk(before, dt);
        lemma_ring_oscillates(after, dt);
    }
}

/// Advances the indicator ring by one frame.
pub fn shrink_ring(ring: &mut Actor, dt: u32)
    requires
        old(ring).velocity.within(RATE_LIMIT as int),
        old(ring).scale.within(COORD_LIMIT as int),
    ensures
        *final(ring) == shrunk(*old(ring), dt as int),
        ring_in_play(*old(ring)) ==> ring_in_play(*final(ring)),
{
    proof {
        lemma_ring_oscillates(*ring, dt as int);
        lemma_over_time_bounds(ring.velocity.x as int, dt as int, RATE_LIMIT as int);
    }
    if ring.velocity.x > 0 {
        let step = elapsed(ring.velocity.x, dt);
        ring.scale.x = ring.scale.x - step;
        ring.scale.y = ring.scale.y - step;
        if ring.scale.x < RING_LOWER {
            ring.velocity.x = -ring.velocity.x;
            ring.velocity.y = -ring.velocity.y;
        }
    } else if ring.velocity.x < 0 {
        let step = elapsed(ring.velocity.x, dt);
        ring.scale.x = ring.scale.x - step;
        ring.scale.y = ring.scale.y - step;
        if ring.scale.x > RING_UPPER {
            ring.velocity.x = -ring.velocity.x;
            ring.velocity.y = -ring.velocity.y;
        }
    }
}

/// Judges the indicator against the goal.
pub fn judge_rings(indicator: &Actor, goal: &Actor, fire: bool) -> (outcome: RingOutcome)
    ensures
        outcome == judged(*indicator, *goal, fire),
{
    if !fire {
        return RingOutcome::Pending;
    }
    let gap: i128 = indicator.scale.x as i128 - goal.scale.x as i128;
    if -(HIT_WINDOW as i128) <= gap && gap <= HIT_WINDOW as i128 {
        RingOutcome::Hit
    } else {
        RingOutcome::Miss
    }
}

} // verus!
