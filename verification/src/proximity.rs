//! Who stands next to whom: the searches behind the prompts, and carrying
//! and burning corpses.

use vstd::prelude::*;
use crate::actor::Actor;
use crate::geometry::{is_near, near, Vec2};
use crate::units::COORD_LIMIT;

verus! {

/// A minion is grabbed this far to the right of its origin.
pub const GRAB_OFFSET_X: i64 = 75_000_000;

/// The player reaches a minion's grab point from closer than this.
pub const MINION_REACH: i64 = 50_000_000;

/// The player picks a corpse up from closer than this.
pub const CORPSE_REACH: i64 = 70_000_000;

/// The fire burns a corpse that is closer than this.
pub const FIRE_REACH: i64 = 50_000_000;

/// A carried corpse hangs this far up and right of the player.
pub const CARRY_OFFSET: i64 = 10_000_000;

/// The first index from `start` on whose actor is near `point`, if any.
pub open spec fn first_near_from(
    point: Vec2,
    actors: Seq<Actor>,
    offset: Vec2,
    radius: int,
    start: int,
) -> Option<int>
    decreases actors.len() - start,
{
    if start < 0 || start >= actors.len() {
        None
    } else if is_near(point, actors[start].pos, offset, radius) {
        Some(start)
    } else {
        first_near_from(point, actors, offset, radius, start + 1)
    }
}

/// The earliest actor that is near `point`: where several qualify, the one
/// that comes first in the collection wins.
pub open spec fn first_near(point: Vec2, actors: Seq<Actor>, offset: Vec2, radius: int) -> Option<
    int,
> {
    first_near_from(point, actors, offset, radius, 0)
}

/// Where the grab point of a minion lies, relative to the minion.
pub open spec fn grab_offset() -> Vec2 {
    Vec2 { x: GRAB_OFFSET_X, y: 0 }
}

/// The minion that the player stands at, if any.
pub open spec fn minion_in_reach(player: Vec2, minions: Seq<Actor>) -> Option<int> {
    first_near(player, minions, grab_offset(), MINION_REACH as int)
}

/// The corpses after a frame of carrying. With the button held, the first
/// corpse within reach of the player jumps to the carry point beside the
/// player.
pub open spec fn carried(corpses: Seq<Actor>, player: Vec2, fire: bool) -> Seq<Actor> {
    if !fire {
        corpses
    } else {
        match first_near(player, corpses, Vec2 { x: 0, y: 0 }, CORPSE_REACH as int) {
            Some(i) => corpses.update(
                i,
                Actor {
                    pos: player.shifted(CARRY_OFFSET as int, CARRY_OFFSET as int),
                    ..corpses[i]
                },
            ),
            None => corpses,
        }
    }
}

/// The corpses after a frame of burning. With the button held, the first
/// corpse within reach of the fire is gone.
pub open spec fn burned(corpses: Seq<Actor>, fire_pos: Vec2, fire: bool) -> Seq<Actor> {
    if !fire {
        corpses
    } else {
        match first_near(fire_pos, corpses, Vec2 { x: 0, y: 0 }, FIRE_REACH as int) {
            Some(i) => corpses.remove(i),
            None => corpses,
        }
    }
}

/// The search result is the least index of a near actor; it is `None` only
/// when no actor from `start` on is near.
pub proof fn lemma_first_near_from(
    point: Vec2,
    actors: Seq<Actor>,
    offset: Vec2,
    radius: int,
    start: int,
)
    requires
        0 <= start,
    ensures
        match first_near_from(point, actors, offset, radius, start) {
            Some(i) => {
                &&& start <= i < actors.len()
                &&& is_near(point, actors[i].pos, offset, radius)
                &&& forall|j: int|
                    start <= j < i ==> !is_near(point, (#[trigger] actors[j]).pos, offset, radius)
            },
            None => forall|j: int|
                start <= j < actors.len() ==> !is_near(
                    point,
                    (#[trigger] actors[j]).pos,
                    offset,
                    radius,
                ),
        },
    decreases actors.len() - start,
{
    if start < actors.len() && !is_near(point, actors[start].pos, offset, radius) {
        lemma_first_near_from(point, actors, offset, radius, start + 1);
    }
}

/// Finds the earliest actor that is near `point`.
pub fn find_near(point: Vec2, actors: &Vec<Actor>, offset: Vec2, radius: i64) -> (r: Option<usize>)
    ensures
        match r {
            Some(i) => first_near(point, actors@, offset, radius as int) == Some(i as int) && i
                < actors.len(),
            None => first_near(point, actors@, offset, radius as int) is None,
        },
{
    let mut i: usize = 0;
    while i < actors.len()
        invariant
            i <= actors.len(),
            first_near(point, actors@, offset, radius as int) == first_near_from(
                point,
                actors@,
                offset,
                radius as int,
                i as int,
            ),
        decreases actors.len() - i,
    {
        if near(point, actors[i].pos, offset, radius) {
            return Some(i);
        }
        i = i + 1;
    }
    None
}

/// Lets the player carry a corpse: with the button held, the first corpse
/// within reach is put at the carry point.
pub fn carry_corpse(corpses: &mut Vec<Actor>, player: Vec2, fire: bool)
    requires
        player.within(COORD_LIMIT as int),
    ensures
        final(corpses)@ == carried(old(corpses)@, player, fire),
{
    if fire {
        match find_near(player, corpses, Vec2 { x: 0, y: 0 }, CORPSE_REACH) {
            Some(i) => {
                let pos = player.translate(CARRY_OFFSET, CARRY_OFFSET);
                corpses[i].pos = pos;
            },
            None => {},
        }
    }
}

/// Lets the fire burn a corpse: with the button held, the first corpse
/// within reach of the fire is removed.
pub fn burn_corpse(corpses: &mut Vec<Actor>, fire_pos: Vec2, fire: bool)
    ensures
        final(corpses)@ == burned(old(corpses)@, fire_pos, fire),
{
    if fire {
        match find_near(fire_pos, corpses, Vec2 { x: 0, y: 0 }, FIRE_REACH) {
            Some(i) => {
                corpses.remove(i);
            },
            None => {},
        }
    }
}

} // verus!
