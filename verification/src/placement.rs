//! Placing minions at random, clear of each other.

use vstd::prelude::*;
use crate::actor::{create_minion, minion_at, Actor};
use crate::chance::draw_between;
use crate::geometry::Vec2;
use crate::physics::{half_extent, half_extent_of};
use crate::units::magnitude;

verus! {

/// Half-width of the box around a minion that no other minion may enter.
pub const EXCLUSION_X: i64 = 170_000_000;

/// Half-height of that box.
pub const EXCLUSION_Y: i64 = 310_000_000;

/// Minions keep this far from the arena's left edge.
pub const INSET_LEFT: i64 = 90_000_000;

/// Minions keep this far from the arena's right edge.
pub const INSET_RIGHT: i64 = 290_000_000;

/// Minions keep this far from the arena's top and bottom edges.
pub const INSET_Y: i64 = 160_000_000;

/// How often one placement is tried before it is given up.
pub const PLACEMENT_ATTEMPTS: u32 = 1000;

/// The two points are within each other's exclusion box.
pub open spec fn too_close(a: Vec2, b: Vec2) -> bool {
    magnitude(a.x - b.x) < EXCLUSION_X && magnitude(a.y - b.y) < EXCLUSION_Y
}

/// No two of the minions are within each other's exclusion box.
pub open spec fn spaced(minions: Seq<Actor>) -> bool {
    forall|i: int, j: int|
        0 <= i < j < minions.len() ==> !too_close(
            (#[trigger] minions[i]).pos,
            (#[trigger] minions[j]).pos,
        )
}

/// The point is clear of every minion's exclusion box.
pub open spec fn is_free(minions: Seq<Actor>, p: Vec2) -> bool {
    forall|i: int| 0 <= i < minions.len() ==> !too_close((#[trigger] minions[i]).pos, p)
}

/// The arena is large enough to leave room inside the insets.
pub open spec fn arena_fits(width: u32, height: u32) -> bool {
    width / 2 > 190 && height / 2 > 160
}

/// The point lies in the rectangle from which placements are drawn.
pub open spec fn in_placement_area(p: Vec2, width: u32, height: u32) -> bool {
    &&& -half_extent(width) + INSET_LEFT <= p.x < half_extent(width) - INSET_RIGHT
    &&& -half_extent(height) + INSET_Y <= p.y < half_extent(height) - INSET_Y
}

/// `after` is `before` with one minion added at its end: a fresh minion,
/// inside the placement area, clear of all that stood before.
pub open spec fn is_placement(
    before: Seq<Actor>,
    after: Seq<Actor>,
    width: u32,
    height: u32,
) -> bool {
    &&& after.len() == before.len() + 1
    &&& after.drop_last() == before
    &&& after.last() == minion_at(after.last().pos)
    &&& in_placement_area(after.last().pos, width, height)
    &&& is_free(before, after.last().pos)
}

/// Every point from which placements are drawn is clear of every minion,
/// so that a placement cannot fail.
pub open spec fn all_clear(minions: Seq<Actor>, width: u32, height: u32) -> bool {
    forall|p: Vec2| #[trigger] in_placement_area(p, width, height) ==> is_free(minions, p)
}

/// `after` is `before` or one placement more.
pub open spec fn placement_outcome(
    before: Seq<Actor>,
    after: Seq<Actor>,
    width: u32,
    height: u32,
    placed: bool,
) -> bool {
    if placed {
        is_placement(before, after, width, height)
    } else {
        after == before
    }
}

/// A minion added clear of spaced minions leaves them spaced.
pub proof fn lemma_push_keeps_spaced(minions: Seq<Actor>, m: Actor)
    requires
        spaced(minions),
        is_free(minions, m.pos),
    ensures
        spaced(minions.push(m)),
{
    let after = minions.push(m);
    assert forall|i: int, j: int| 0 <= i < j < after.len() implies !too_close(
        (#[trigger] after[i]).pos,
        (#[trigger] after[j]).pos,
    ) by {
        if j < minions.len() {
            assert(after[i] == minions[i] && after[j] == minions[j]);
        } else {
            assert(after[i] == minions[i]);
        }
    }
}

/// Removing a minion leaves the others spaced.
pub proof fn lemma_remove_keeps_spaced(minions: Seq<Actor>, k: int)
    requires
        spaced(minions),
        0 <= k < minions.len(),
    ensures
        spaced(minions.remove(k)),
{
    let after = minions.remove(k);
    assert forall|i: int, j: int| 0 <= i < j < after.len() implies !too_close(
        (#[trigger] after[i]).pos,
        (#[trigger] after[j]).pos,
    ) by {
        let i0 = if i < k { i } else { i + 1 };
        let j0 = if j < k { j } else { j + 1 };
        assert(after[i] == minions[i0] && after[j] == minions[j0]);
    }
}

/// Tells whether two points are within each other's exclusion box.
pub fn is_too_close(a: Vec2, b: Vec2) -> (r: bool)
    ensures
        r == too_close(a, b),
{
    let dx: i128 = a.x as i128 - b.x as i128;
    let dy: i128 = a.y as i128 - b.y as i128;
    -(EXCLUSION_X as i128) < dx && dx < EXCLUSION_X as i128 && -(EXCLUSION_Y as i128) < dy && dy
        < EXCLUSION_Y as i128
}

/// Puts a minion at `(x, y)` unless an existing minion is too close.
/// Returns whether the minion was added.
pub fn place_minion(minions: &mut Vec<Actor>, x: i64, y: i64) -> (placed: bool)
    ensures
        placed == is_free(old(minions)@, Vec2 { x, y }),
        placed ==> final(minions)@ == old(minions)@.push(minion_at(Vec2 { x, y })),
        !placed ==> final(minions)@ == old(minions)@,
        spaced(old(minions)@) ==> spaced(final(minions)@),
{
    let candidate = create_minion(x, y);
    let mut not_too_close = true;
    let mut i: usize = 0;
    while i < minions.len()
        invariant
            i <= minions.len(),
            minions@ == old(minions)@,
            candidate.pos == (Vec2 { x, y }),
            not_too_close == is_free(minions@.take(i as int), candidate.pos),
        decreases minions.len() - i,
    {
        let taken = is_too_close(minions[i].pos, candidate.pos);
        proof {
            let before = minions@.take(i as int);
            let after = minions@.take(i as int + 1);
            assert(after == before.push(minions@[i as int]));
            if is_free(after, candidate.pos) {
                assert forall|k: int| 0 <= k < before.len() implies !too_close(
                    (#[trigger] before[k]).pos,
                    candidate.pos,
                ) by {
                    assert(before[k] == after[k]);
                }
                assert(after[i as int] == minions@[i as int]);
            }
            if is_free(before, candidate.pos) && !taken {
                assert forall|k: int| 0 <= k < after.len() implies !too_close(
                    (#[trigger] after[k]).pos,
                    candidate.pos,
                ) by {
                    if k < i {
                        assert(after[k] == before[k]);
                    }
                }
            }
        }
        if taken {
            not_too_close = false;
        }
        i = i + 1;
    }
    proof {
        assert(minions@.take(minions.len() as int) == minions@);
        if not_too_close {
            lemma_push_keeps_spaced_if(minions@, candidate);
        }
    }
    if not_too_close {
        minions.push(candidate);
    }
    not_too_close
}

proof fn lemma_push_keeps_spaced_if(minions: Seq<Actor>, m: Actor)
    requires
        is_free(minions, m.pos),
    ensures
        spaced(minions) ==> spaced(minions.push(m)),
{
    if spaced(minions) {
        lemma_push_keeps_spaced(minions, m);
    }
}

/// Tries one random placement: draws a point of the placement area and puts
/// a minion there unless an existing minion is too close. Returns whether
/// the minion was added.
pub fn add_minion(
    minions: &mut Vec<Actor>,
    rng: &mut rand::ThreadRng,
    width: u32,
    height: u32,
) -> (placed: bool)
    requires
        arena_fits(width, height),
    ensures
        placement_outcome(old(minions)@, final(minions)@, width, height, placed),
        all_clear(old(minions)@, width, height) ==> placed,
        spaced(old(minions)@) ==> spaced(final(minions)@),
{
    let half_w = half_extent_of(width);
    let half_h = half_extent_of(height);
    let x = draw_between(rng, -half_w + INSET_LEFT, half_w - INSET_RIGHT);
    let y = draw_between(rng, -half_h + INSET_Y, half_h - INSET_Y);
    assert(in_placement_area(Vec2 { x, y }, width, height));
    let placed = place_minion(minions, x, y);
    proof {
        if placed {
            assert(minions@.drop_last() == old(minions)@);
        }
    }
    placed
}

/// Tries random placements until one succeeds, `attempts` times at most.
/// Returns whether a minion was added.
pub fn add_minion_retrying(
    minions: &mut Vec<Actor>,
    rng: &mut rand::ThreadRng,
    width: u32,
    height: u32,
    attempts: u32,
) -> (placed: bool)
    requires
        arena_fits(width, height),
    ensures
        placement_outcome(old(minions)@, final(minions)@, width, height, placed),
        all_clear(old(minions)@, width, height) && attempts > 0 ==> placed,
        attempts == 0 ==> !placed,
        spaced(old(minions)@) ==> spaced(final(minions)@),
{
    let mut placed = false;
    let mut tries: u32 = 0;
    while !placed && tries < attempts
        invariant
            arena_fits(width, height),
            placement_outcome(old(minions)@, minions@, width, height, placed),
            all_clear(old(minions)@, width, height) && tries > 0 ==> placed,
            tries <= attempts,
            attempts == 0 ==> !placed,
            spaced(old(minions)@) ==> spaced(minions@),
        decreases attempts - tries,
    {
        placed = add_minion(minions, rng, width, height);
        tries = tries + 1;
    }
    placed
}

} // verus!
