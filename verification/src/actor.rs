//! The actor record shared by every simulated entity.

use vstd::prelude::*;
use crate::geometry::Vec2;

verus! {

/// Which of the two rings of the mini-game an actor is.
#[derive(Clone, Copy, Debug, PartialEq, Eq, Structural)]
pub enum RingRole {
    /// The ring that shrinks and grows.
    Indicator,
    /// The stationary band to match.
    Goal,
}

/// What an actor is. Fixed when the actor is made.
#[derive(Clone, Copy, Debug, PartialEq, Eq, Structural)]
pub enum ActorKind {
    Player,
    Minion,
    DeadMinion,
    Ring(RingRole),
    Fire,
    Attention,
    BodyReminder,
    SuccessMarker,
}

/// Any simulated entity.
///
/// `life` means different things by kind: for the player, the time since
/// the walk cycle last restarted; for the success marker, the frames left
/// to show it, `UNIT` per frame; for the two prompts, `UNIT` when shown and
/// zero when hidden. `velocity` is the thrust-driven speed of the player
/// and, for the indicator ring, the rate at which its scale falls (positive)
/// or rises (negative). `facing` is `1` for right and `-1` for left.
#[derive(Clone, Copy, Debug, PartialEq, Eq, Structural)]
pub struct Actor {
    pub kind: ActorKind,
    pub pos: Vec2,
    pub velocity: Vec2,
    pub facing: i8,
    pub scale: Vec2,
    pub life: i64,
}

/// Frames for which the success marker stays up, in millionths.
pub const SUCCESS_LIFE: i64 = 30_000_000;

/// The `life` a freshly made player starts with.
pub const PLAYER_LIFE: i64 = 10_000_000;

/// The rate at which the indicator ring shrinks before its first game.
pub const SHRINK_RATE: i64 = 400_000;

/// Draw scale of minions and corpses: half the player's.
pub const MINION_SCALE: i64 = 500_000;

/// Draw scale of the goal ring before its first game.
pub const GOAL_SCALE: i64 = 300_000;

/// Where the player starts on the x axis.
pub const PLAYER_START_X: i64 = 500_000_000;

/// An actor at rest with full-size scale.
pub open spec fn still(kind: ActorKind, pos: Vec2, scale: int, life: int) -> Actor {
    Actor {
        kind,
        pos,
        velocity: Vec2 { x: 0, y: 0 },
        facing: 0,
        scale: Vec2 { x: scale as i64, y: scale as i64 },
        life: life as i64,
    }
}

/// The minion standing at `pos`.
pub open spec fn minion_at(pos: Vec2) -> Actor {
    still(ActorKind::Minion, pos, MINION_SCALE as int, 1_000_000)
}

/// The corpse lying at `pos`.
pub open spec fn corpse_at(pos: Vec2) -> Actor {
    still(ActorKind::DeadMinion, pos, MINION_SCALE as int, 1_000_000)
}

/// The player as the game starts: right of the centre, facing left.
pub open spec fn initial_player() -> Actor {
    Actor {
        kind: ActorKind::Player,
        pos: Vec2 { x: PLAYER_START_X, y: 0 },
        velocity: Vec2 { x: 0, y: 0 },
        facing: -1i8,
        scale: Vec2 { x: 1_000_000, y: 1_000_000 },
        life: PLAYER_LIFE,
    }
}

/// The indicator ring before its first game.
pub open spec fn initial_ring() -> Actor {
    Actor {
        kind: ActorKind::Ring(RingRole::Indicator),
        pos: Vec2 { x: 0, y: 0 },
        velocity: Vec2 { x: SHRINK_RATE, y: SHRINK_RATE },
        facing: 0,
        scale: Vec2 { x: 1_000_000, y: 1_000_000 },
        life: 1_000_000,
    }
}

fn create_still(kind: ActorKind, pos: Vec2, scale: i64, life: i64) -> (a: Actor)
    ensures
        a == still(kind, pos, scale as int, life as int),
{
    Actor {
        kind,
        pos,
        velocity: Vec2 { x: 0, y: 0 },
        facing: 0,
        scale: Vec2 { x: scale, y: scale },
        life,
    }
}

pub fn create_body_reminder() -> (a: Actor)
    ensures
        a == still(ActorKind::BodyReminder, Vec2 { x: 0, y: 0 }, 1_000_000, 1_000_000),
{
    create_still(ActorKind::BodyReminder, Vec2 { x: 0, y: 0 }, 1_000_000, 1_000_000)
}

pub fn create_fire(x: i64, y: i64) -> (a: Actor)
    ensures
        a == still(ActorKind::Fire, Vec2 { x, y }, 1_000_000, 1_000_000),
{
    create_still(ActorKind::Fire, Vec2 { x, y }, 1_000_000, 1_000_000)
}

pub fn create_attention() -> (a: Actor)
    ensures
        a == still(ActorKind::Attention, Vec2 { x: 0, y: 0 }, 1_000_000, 1_000_000),
{
    create_still(ActorKind::Attention, Vec2 { x: 0, y: 0 }, 1_000_000, 1_000_000)
}

pub fn create_success_marker() -> (a: Actor)
    ensures
        a == still(
            ActorKind::SuccessMarker,
            Vec2 { x: 0, y: 0 },
            1_000_000,
            SUCCESS_LIFE as int,
        ),
{
    create_still(ActorKind::SuccessMarker, Vec2 { x: 0, y: 0 }, 1_000_000, SUCCESS_LIFE)
}

pub fn create_ring() -> (a: Actor)
    ensures
        a == initial_ring(),
{
    Actor {
        kind: ActorKind::Ring(RingRole::Indicator),
        pos: Vec2 { x: 0, y: 0 },
        velocity: Vec2 { x: SHRINK_RATE, y: SHRINK_RATE },
        facing: 0,
        scale: Vec2 { x: 1_000_000, y: 1_000_000 },
        life: 1_000_000,
    }
}

pub fn create_goal_ring() -> (a: Actor)
    ensures
        a == still(
            ActorKind::Ring(RingRole::Goal),
            Vec2 { x: 0, y: 0 },
            GOAL_SCALE as int,
            1_000_000,
        ),
{
    create_still(ActorKind::Ring(RingRole::Goal), Vec2 { x: 0, y: 0 }, GOAL_SCALE, 1_000_000)
}

pub fn create_dead_minion(x: i64, y: i64) -> (a: Actor)
    ensures
        a == corpse_at(Vec2 { x, y }),
{
    create_still(ActorKind::DeadMinion, Vec2 { x, y }, MINION_SCALE, 1_000_000)
}

pub fn create_minion(x: i64, y: i64) -> (a: Actor)
    ensures
        a == minion_at(Vec2 { x, y }),
{
    create_still(ActorKind::Minion, Vec2 { x, y }, MINION_SCALE, 1_000_000)
}

pub fn create_player() -> (a: Actor)
    ensures
        a == initial_player(),
{
    Actor {
        kind: ActorKind::Player,
        pos: Vec2 { x: PLAYER_START_X, y: 0 },
        velocity: Vec2 { x: 0, y: 0 },
        facing: -1,
        scale: Vec2 { x: 1_000_000, y: 1_000_000 },
        life: PLAYER_LIFE,
    }
}

} // verus!
