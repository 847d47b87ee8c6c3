//! The mathematical model of a game session: its invariant and what each
//! kind of frame does to it.

use vstd::prelude::*;
use crate::actor::{
    corpse_at, initial_player, initial_ring, still, Actor, ActorKind, RingRole, GOAL_SCALE,
    SUCCESS_LIFE,
};
use crate::geometry::Vec2;
use crate::input::InputState;
use crate::physics::{
    cycle_restarted, facing_toward, half_extent, moved, steered, stride_over, MAX_SPEED,
};
use crate::placement::{
    all_clear, arena_fits, is_placement, lemma_push_keeps_spaced, lemma_remove_keeps_spaced,
    placement_outcome, spaced,
};
use crate::proximity::{
    burned, carried, first_near, grab_offset, lemma_first_near_from, minion_in_reach,
    CORPSE_REACH, FIRE_REACH, MINION_REACH,
};
use crate::ring::{
    judged, ring_in_play, shrunk, RingOutcome, GOAL_SCALE_MAX, GOAL_SCALE_MIN, SHRINK_SPEED_MAX,
    SHRINK_SPEED_MIN,
};
use crate::units::{saturate, COORD_LIMIT, UNIT};

verus! {

/// The countdown at the start of a game.
pub const INITIAL_TIMER: i64 = 45_000_000;

/// Time won by a hit while the score is under `BONUS_THRESHOLD`.
pub const EARLY_BONUS: i64 = 5_000_000;

/// Time won by a hit from then on.
pub const LATE_BONUS: i64 = 3_000_000;

/// The score from which hits win the smaller bonus.
pub const BONUS_THRESHOLD: u32 = 10;

/// Minions placed while the game loads.
pub const INITIAL_MINIONS: usize = 3;

/// The attention prompt floats this far right of the player.
pub const ATTENTION_OFFSET_X: i64 = 50_000_000;

/// The body reminder floats this far right of the player.
pub const REMINDER_OFFSET_X: i64 = 120_000_000;

/// Both prompts float this far above the player.
pub const PROMPT_OFFSET_Y: i64 = 100_000_000;

/// The fire pit stands this far in from the right and bottom edges.
pub const FIRE_INSET: i64 = 100_000_000;

/// The screens and phases of the game.
#[derive(Clone, Copy, Debug, PartialEq, Eq, Structural)]
pub enum Mode {
    Loading,
    Intro1,
    Intro2,
    Intro3,
    Controls,
    FreeRoam,
    RingMinigame,
    SuccessDisplay,
    TimeUp,
}

impl Mode {
    /// The countdown runs in this mode.
    pub open spec fn counts_down(self) -> bool {
        self is FreeRoam || self is RingMinigame || self is SuccessDisplay
    }

    /// A screen that waits for a key press.
    pub open spec fn awaits_key(self) -> bool {
        self is Intro1 || self is Intro2 || self is Intro3 || self is Controls
    }

    /// What follows a screen when a key is pressed; other modes stay.
    pub open spec fn next_screen(self) -> Mode {
        match self {
            Mode::Intro1 => Mode::Intro2,
            Mode::Intro2 => Mode::Intro3,
            Mode::Intro3 => Mode::Controls,
            Mode::Controls => Mode::FreeRoam,
            other => other,
        }
    }

    /// Tells whether the countdown runs in this mode.
    pub fn is_counting_down(self) -> (r: bool)
        ensures
            r == self.counts_down(),
    {
        match self {
            Mode::FreeRoam | Mode::RingMinigame | Mode::SuccessDisplay => true,
            _ => false,
        }
    }
}

/// The mathematical model of a session: what a `Session` holds, with
/// sequences in place of vectors.
pub struct World {
    pub player: Actor,
    pub fire: Actor,
    pub attention: Actor,
    pub body_reminder: Actor,
    pub success_marker: Actor,
    pub minions: Seq<Actor>,
    pub dead_minions: Seq<Actor>,
    pub rings: Seq<Actor>,
    pub mode: Mode,
    pub screen_width: u32,
    pub screen_height: u32,
    pub input: InputState,
    pub score: u32,
    pub timer: i64,
}

/// The actor can be drawn on a screen of this height: its coordinates are
/// of a size that arithmetic can take, and it is not below the arena.
pub open spec fn on_stage(actor: Actor, height: u32) -> bool {
    &&& actor.pos.within(2 * COORD_LIMIT)
    &&& actor.pos.y >= -half_extent(height)
    &&& actor.scale.within(COORD_LIMIT as int)
}

/// Every actor of the collection is of the given kind and on stage.
pub open spec fn cast_of(actors: Seq<Actor>, kind: ActorKind, height: u32) -> bool {
    forall|i: int|
        0 <= i < actors.len() ==> (#[trigger] actors[i]).kind == kind && on_stage(
            actors[i],
            height,
        )
}

/// Where the fire pit stands: near the bottom right corner.
pub open spec fn fire_position(width: u32, height: u32) -> Vec2 {
    Vec2 {
        x: (half_extent(width) - FIRE_INSET) as i64,
        y: (-half_extent(height) + FIRE_INSET) as i64,
    }
}

/// The bonus that a hit wins, by the score that the hit has just raised.
pub open spec fn bonus(score: u32) -> int {
    if score < BONUS_THRESHOLD {
        EARLY_BONUS as int
    } else {
        LATE_BONUS as int
    }
}

/// The score after one more hit. It stops at the largest `u32`.
pub open spec fn next_score(score: u32) -> u32 {
    if score < u32::MAX {
        (score + 1) as u32
    } else {
        score
    }
}

/// `after` continues `before` by placements, each clear of all minions
/// placed before it.
pub open spec fn is_placement_run(
    before: Seq<Actor>,
    after: Seq<Actor>,
    width: u32,
    height: u32,
) -> bool {
    &&& before.len() <= after.len()
    &&& after.take(before.len() as int) == before
    &&& forall|k: int|
        before.len() <= k < after.len() ==> is_placement(
            #[trigger] after.take(k),
            after.take(k + 1),
            width,
            height,
        )
}

/// Carrying keeps the corpses a cast of corpses on stage.
pub proof fn lemma_carried_on_stage(corpses: Seq<Actor>, player: Actor, fire: bool, height: u32)
    requires
        cast_of(corpses, ActorKind::DeadMinion, height),
        player.pos.within(COORD_LIMIT as int),
        player.pos.y >= -half_extent(height),
    ensures
        cast_of(carried(corpses, player.pos, fire), ActorKind::DeadMinion, height),
{
    let after = carried(corpses, player.pos, fire);
    lemma_first_near_from(player.pos, corpses, Vec2 { x: 0, y: 0 }, CORPSE_REACH as int, 0);
    assert forall|i: int| 0 <= i < after.len() implies (#[trigger] after[i]).kind
        == ActorKind::DeadMinion && on_stage(after[i], height) by {
        let before = corpses[i];
        assert(before.kind == ActorKind::DeadMinion && on_stage(before, height));
    }
}

/// Burning keeps the corpses a cast of corpses on stage.
pub proof fn lemma_burned_on_stage(corpses: Seq<Actor>, fire_pos: Vec2, fire: bool, height: u32)
    requires
        cast_of(corpses, ActorKind::DeadMinion, height),
    ensures
        cast_of(burned(corpses, fire_pos, fire), ActorKind::DeadMinion, height),
{
    let after = burned(corpses, fire_pos, fire);
    if after != corpses {
        let k = first_near(fire_pos, corpses, Vec2 { x: 0, y: 0 }, FIRE_REACH as int)->0;
        lemma_first_near_from(fire_pos, corpses, Vec2 { x: 0, y: 0 }, FIRE_REACH as int, 0);
        assert forall|i: int| 0 <= i < after.len() implies (#[trigger] after[i]).kind
            == ActorKind::DeadMinion && on_stage(after[i], height) by {
            let before = if i < k {
                corpses[i]
            } else {
                corpses[i + 1]
            };
            assert(before.kind == ActorKind::DeadMinion && on_stage(before, height));
        }
    }
}

/// A cast without one of its actors is still a cast.
pub proof fn lemma_removed_on_stage(actors: Seq<Actor>, k: int, kind: ActorKind, height: u32)
    requires
        cast_of(actors, kind, height),
        0 <= k < actors.len(),
    ensures
        cast_of(actors.remove(k), kind, height),
{
    let after = actors.remove(k);
    assert forall|i: int| 0 <= i < after.len() implies (#[trigger] after[i]).kind == kind
        && on_stage(after[i], height) by {
        let before = if i < k {
            actors[i]
        } else {
            actors[i + 1]
        };
        assert(before.kind == kind && on_stage(before, height));
    }
}

/// A cast joined by an actor of its kind that is on stage is still a cast.
pub proof fn lemma_pushed_on_stage(actors: Seq<Actor>, actor: Actor, kind: ActorKind, height: u32)
    requires
        cast_of(actors, kind, height),
        actor.kind == kind,
        on_stage(actor, height),
    ensures
        cast_of(actors.push(actor), kind, height),
{
    let after = actors.push(actor);
    assert forall|i: int| 0 <= i < after.len() implies (#[trigger] after[i]).kind == kind
        && on_stage(after[i], height) by {
        if i < actors.len() {
            assert(actors[i].kind == kind && on_stage(actors[i], height));
        }
    }
}

/// A placed minion is a minion on stage.
pub proof fn lemma_placed_on_stage(
    before: Seq<Actor>,
    after: Seq<Actor>,
    width: u32,
    height: u32,
    placed: bool,
)
    requires
        cast_of(before, ActorKind::Minion, height),
        placement_outcome(before, after, width, height, placed),
    ensures
        cast_of(after, ActorKind::Minion, height),
{
    if placed {
        lemma_pushed_on_stage(before, after.last(), ActorKind::Minion, height);
        assert(after =~= before.push(after.last()));
    }
}

/// Minions continue themselves by no placement at all.
pub proof fn lemma_run_starts(minions: Seq<Actor>, width: u32, height: u32)
    ensures
        is_placement_run(minions, minions, width, height),
{
    assert(minions.take(minions.len() as int) =~= minions);
}

/// A run of placements followed by the outcome of one more attempt is a run.
pub proof fn lemma_run_extends(
    before: Seq<Actor>,
    mid: Seq<Actor>,
    after: Seq<Actor>,
    width: u32,
    height: u32,
    placed: bool,
)
    requires
        is_placement_run(before, mid, width, height),
        placement_outcome(mid, after, width, height, placed),
    ensures
        is_placement_run(before, after, width, height),
{
    if placed {
        assert(after.take(before.len() as int) =~= mid.take(before.len() as int));
        assert forall|k: int| before.len() <= k < after.len() implies is_placement(
            #[trigger] after.take(k),
            after.take(k + 1),
            width,
            height,
        ) by {
            if k < mid.len() {
                assert(after.take(k) =~= mid.take(k));
                assert(after.take(k + 1) =~= mid.take(k + 1));
                assert(is_placement(mid.take(k), mid.take(k + 1), width, height));
            } else {
                assert(after.take(k) =~= mid);
                assert(after.take(k + 1) =~= after);
            }
        }
    }
}

impl World {
    /// The session as a game begins.
    pub open spec fn initial(width: u32, height: u32) -> World {
        World {
            player: initial_player(),
            fire: still(ActorKind::Fire, fire_position(width, height), 1_000_000, 1_000_000),
            attention: still(ActorKind::Attention, Vec2 { x: 0, y: 0 }, 1_000_000, 1_000_000),
            body_reminder: still(
                ActorKind::BodyReminder,
                Vec2 { x: 0, y: 0 },
                1_000_000,
                1_000_000,
            ),
            success_marker: still(
                ActorKind::SuccessMarker,
                Vec2 { x: 0, y: 0 },
                1_000_000,
                SUCCESS_LIFE as int,
            ),
            minions: Seq::empty(),
            dead_minions: Seq::empty(),
            rings: seq![
                initial_ring(),
                still(
                    ActorKind::Ring(RingRole::Goal),
                    Vec2 { x: 0, y: 0 },
                    GOAL_SCALE as int,
                    1_000_000,
                ),
            ],
            mode: Mode::Loading,
            screen_width: width,
            screen_height: height,
            input: InputState::idle(),
            score: 0,
            timer: INITIAL_TIMER,
        }
    }

    /// The invariant of a session.
    ///
    /// There is one player, inside the range of coordinates and never faster
    /// than `MAX_SPEED` on an axis; every actor has the kind of its place and
    /// is on stage; there are exactly two rings, indicator first, and the
    /// indicator is in play; no two minions stand in each other's exclusion
    /// box; the success marker has a whole, positive number of frames left.
    pub open spec fn wf(self) -> bool {
        &&& arena_fits(self.screen_width, self.screen_height)
        &&& self.player.kind == ActorKind::Player
        &&& self.player.pos.within(COORD_LIMIT as int)
        &&& self.player.velocity.within(MAX_SPEED as int)
        &&& on_stage(self.player, self.screen_height)
        &&& self.fire.kind == ActorKind::Fire
        &&& on_stage(self.fire, self.screen_height)
        &&& self.attention.kind == ActorKind::Attention
        &&& on_stage(self.attention, self.screen_height)
        &&& self.body_reminder.kind == ActorKind::BodyReminder
        &&& on_stage(self.body_reminder, self.screen_height)
        &&& self.success_marker.kind == ActorKind::SuccessMarker
        &&& on_stage(self.success_marker, self.screen_height)
        &&& 0 < self.success_marker.life <= SUCCESS_LIFE
        &&& self.success_marker.life % UNIT == 0
        &&& self.rings.len() == 2
        &&& self.rings[0].kind == ActorKind::Ring(RingRole::Indicator)
        &&& self.rings[1].kind == ActorKind::Ring(RingRole::Goal)
        &&& ring_in_play(self.rings[0])
        &&& on_stage(self.rings[0], self.screen_height)
        &&& on_stage(self.rings[1], self.screen_height)
        &&& cast_of(self.minions, ActorKind::Minion, self.screen_height)
        &&& spaced(self.minions)
        &&& cast_of(self.dead_minions, ActorKind::DeadMinion, self.screen_height)
    }

    /// The world after a frame of free roaming.
    ///
    /// A walk cycle that has run out restarts. The player is steered and
    /// moved, its `life` runs on by the frame's time, and it turns to face
    /// the way it now moves. Both prompts follow the player and are hidden,
    /// then one is shown if the player stands at a minion: the attention
    /// prompt when no corpse is waiting, else the body reminder. With the
    /// button held, the first corpse in reach is carried, and after that the
    /// first corpse at the fire burns.
    pub open spec fn roamed(self, dt: int) -> World {
        let rested = Actor { life: cycle_restarted(self.player), ..self.player };
        let steered_player = Actor {
            velocity: steered(rested.velocity, self.input, dt),
            ..rested
        };
        let walked = moved(steered_player, self.screen_width, self.screen_height, dt);
        let player = Actor {
            life: saturate(walked.life + dt) as i64,
            facing: facing_toward(walked.velocity.x as int, walked.facing),
            ..walked
        };
        let at_minion = minion_in_reach(player.pos, self.minions) is Some;
        let corpse_waits = self.dead_minions.len() != 0;
        World {
            player,
            attention: Actor {
                pos: player.pos.shifted(ATTENTION_OFFSET_X as int, PROMPT_OFFSET_Y as int),
                life: if at_minion && !corpse_waits {
                    UNIT
                } else {
                    0
                },
                ..self.attention
            },
            body_reminder: Actor {
                pos: player.pos.shifted(REMINDER_OFFSET_X as int, PROMPT_OFFSET_Y as int),
                life: if at_minion && corpse_waits {
                    UNIT
                } else {
                    0
                },
                ..self.body_reminder
            },
            dead_minions: burned(
                carried(self.dead_minions, player.pos, self.input.fire),
                self.fire.pos,
                self.input.fire,
            ),
            ..self
        }
    }

    /// The world as a mini-game opens: the press that opened it is used up,
    /// the indicator is back at full size with the given shrink speed, and
    /// the goal has the given scale.
    pub open spec fn ring_opened(self, speed: i64, goal: i64) -> World {
        World {
            mode: Mode::RingMinigame,
            input: InputState { fire: false, ..self.input },
            rings: self.rings.update(
                0,
                Actor {
                    scale: Vec2 { x: UNIT, y: UNIT },
                    velocity: Vec2 { x: speed, y: speed },
                    ..self.rings[0]
                },
            ).update(1, Actor { scale: Vec2 { x: goal, y: goal }, ..self.rings[1] }),
            ..self
        }
    }

    /// The game is over once the countdown has reached zero.
    pub open spec fn timed_out(self) -> World {
        if self.timer <= 0 {
            World { mode: Mode::TimeUp, ..self }
        } else {
            self
        }
    }

    /// The countdown runs by `dt` in the modes that count down.
    pub open spec fn ticked(self, dt: int) -> World {
        if self.mode.counts_down() {
            World { timer: saturate(self.timer - dt) as i64, ..self }
        } else {
            self
        }
    }

    /// The world with the indicator ring a frame further.
    pub open spec fn ring_advanced(self, dt: int) -> World {
        World { rings: self.rings.update(0, shrunk(self.rings[0], dt)), ..self }
    }

    /// The minions without the one that the player stands at.
    pub open spec fn without_target(self) -> Seq<Actor> {
        match minion_in_reach(self.player.pos, self.minions) {
            Some(i) => self.minions.remove(i),
            None => self.minions,
        }
    }

    /// The world after a hit, before the new minion is placed: the minion
    /// at the player is gone, the prompt hidden, the score raised, and the
    /// countdown extended by the bonus that the raised score earns.
    pub open spec fn hit_resolved(self) -> World {
        let score = next_score(self.score);
        World {
            minions: self.without_target(),
            attention: Actor { life: 0, ..self.attention },
            mode: Mode::SuccessDisplay,
            score,
            timer: saturate(self.timer + bonus(score)) as i64,
            ..self
        }
    }

    /// The world after a miss, before the new minion is placed: the minion
    /// at the player has become a corpse where it stood.
    pub open spec fn miss_resolved(self) -> World {
        World {
            minions: self.without_target(),
            dead_minions: match minion_in_reach(self.player.pos, self.minions) {
                Some(i) => self.dead_minions.push(corpse_at(self.minions[i].pos)),
                None => self.dead_minions,
            },
            mode: Mode::FreeRoam,
            ..self
        }
    }

    /// The world after a frame of the success display: the player roams on,
    /// the marker loses one frame, and with its last frame the marker is
    /// reset and free roaming resumes.
    pub open spec fn celebrated(self, dt: int) -> World {
        let roamed = self.roamed(dt);
        let left = roamed.success_marker.life - UNIT;
        if left == 0 {
            World {
                success_marker: Actor { life: SUCCESS_LIFE, ..roamed.success_marker },
                mode: Mode::FreeRoam,
                ..roamed
            }
        } else {
            World { success_marker: Actor { life: left as i64, ..roamed.success_marker }, ..roamed }
        }
    }

    /// The world after a waiting screen has looked at the keyboard: a
    /// pressed key moves to the next screen and is used up.
    pub open spec fn key_consumed(self) -> World {
        if self.input.any_key {
            World {
                mode: self.mode.next_screen(),
                input: InputState { any_key: false, ..self.input },
                ..self
            }
        } else {
            self
        }
    }

    /// One frame takes `self` to `post`.
    ///
    /// Wherever no random number is drawn the frame is a function of the
    /// world before it. Where a mini-game opens, `post` holds the speed and
    /// the goal that were drawn, each from its range. Where minions are
    /// placed, `post` holds them, each a valid placement; `placed` tells
    /// whether every placement that the frame called for was made.
    pub open spec fn frame(self, post: World, dt: int, placed: bool) -> bool {
        match self.mode {
            Mode::Loading => {
                &&& post == World { minions: post.minions, mode: Mode::Intro1, ..self }
                &&& is_placement_run(
                    self.minions,
                    post.minions,
                    self.screen_width,
                    self.screen_height,
                )
                &&& post.minions.len() <= self.minions.len() + INITIAL_MINIONS
                &&& placed == (post.minions.len() == self.minions.len() + INITIAL_MINIONS)
                &&& all_clear(self.minions, self.screen_width, self.screen_height)
                    ==> post.minions.len() > self.minions.len()
            },
            Mode::Intro1 | Mode::Intro2 | Mode::Intro3 | Mode::Controls => {
                &&& post == self.key_consumed().ticked(dt)
                &&& placed
            },
            Mode::FreeRoam => {
                let roamed = self.roamed(dt);
                &&& placed
                &&& if roamed.attention.life == UNIT && roamed.input.fire {
                    let speed = post.rings[0].velocity.x;
                    let goal = post.rings[1].scale.x;
                    &&& SHRINK_SPEED_MIN <= speed < SHRINK_SPEED_MAX
                    &&& GOAL_SCALE_MIN <= goal < GOAL_SCALE_MAX
                    &&& post == roamed.ring_opened(speed, goal).timed_out().ticked(dt)
                } else {
                    post == roamed.timed_out().ticked(dt)
                }
            },
            Mode::RingMinigame => {
                let advanced = self.ring_advanced(dt);
                match judged(advanced.rings[0], advanced.rings[1], advanced.input.fire) {
                    RingOutcome::Pending => placed && post == advanced.ticked(dt),
                    RingOutcome::Hit => {
                        let resolved = advanced.hit_resolved();
                        &&& post == World { minions: post.minions, ..resolved }.ticked(dt)
                        &&& placement_outcome(
                            resolved.minions,
                            post.minions,
                            self.screen_width,
                            self.screen_height,
                            placed,
                        )
                        &&& all_clear(resolved.minions, self.screen_width, self.screen_height)
                            ==> placed
                    },
                    RingOutcome::Miss => {
                        let resolved = advanced.miss_resolved();
                        &&& post == World { minions: post.minions, ..resolved }.ticked(dt)
                        &&& placement_outcome(
                            resolved.minions,
                            post.minions,
                            self.screen_width,
                            self.screen_height,
                            placed,
                        )
                        &&& all_clear(resolved.minions, self.screen_width, self.screen_height)
                            ==> placed
                    },
                }
            },
            Mode::SuccessDisplay => placed && post == self.celebrated(dt).ticked(dt),
            Mode::TimeUp => placed && post == self,
        }
    }
}

/// A key held down across frames of the waiting screens advances one
/// screen, never more: the first frame uses the press up, and every later
/// frame that still finds a waiting screen leaves the world as it is.
///
/// `worlds` are the worlds before and after successive frames with no key
/// event between them, all but the last on a waiting screen.
pub proof fn lemma_held_key_advances_once(worlds: Seq<World>, dts: Seq<int>, k: int)
    requires
        worlds.len() == dts.len() + 1,
        forall|i: int|
            0 <= i < dts.len() ==> (#[trigger] worlds[i]).mode.awaits_key() && worlds[i].frame(
                worlds[i + 1],
                dts[i],
                true,
            ),
        1 <= k < worlds.len(),
    ensures
        worlds[1].mode == if worlds[0].input.any_key {
            worlds[0].mode.next_screen()
        } else {
            worlds[0].mode
        },
        !worlds[1].input.any_key,
        worlds[k] == worlds[1],
    decreases k,
{
    assert(worlds[0].mode.awaits_key());
    if k > 1 {
        lemma_held_key_advances_once(worlds, dts, k - 1);
        assert(worlds[k - 1].mode.awaits_key());
        assert(worlds[k - 1] == worlds[1]);
    }
}

/// Free roaming ends in `TimeUp` exactly in the frame that finds the
/// countdown at or below zero; until then every such frame takes its time
/// off the countdown, and the frame that ends the game takes none.
pub proof fn lemma_time_up(pre: World, post: World, dt: int, placed: bool)
    requires
        pre.mode is FreeRoam,
        pre.frame(post, dt, placed),
    ensures
        post.mode is TimeUp <==> pre.timer <= 0,
        pre.timer <= 0 ==> post.timer == pre.timer,
        pre.timer > 0 ==> post.timer == saturate(pre.timer - dt),
        post.score == pre.score,
{
}

/// After a frame of roaming the player faces the way it moves, and had its
/// walk cycle run out while it walked, the cycle has restarted: its `life`
/// is the frame's time and no more.
pub proof fn lemma_roaming_poses_player(w: World, dt: int)
    requires
        0 <= dt <= u32::MAX,
    ensures
        w.roamed(dt).player.velocity.x > 0 ==> w.roamed(dt).player.facing == 1,
        w.roamed(dt).player.velocity.x < 0 ==> w.roamed(dt).player.facing == -1,
        w.roamed(dt).player.velocity.x == 0 ==> w.roamed(dt).player.facing == w.player.facing,
        w.player.velocity != (Vec2 { x: 0, y: 0 }) && stride_over(w.player.life as int)
            ==> w.roamed(dt).player.life == dt,
        w.player.velocity == (Vec2 { x: 0, y: 0 }) || !stride_over(w.player.life as int)
            ==> w.roamed(dt).player.life == saturate(w.player.life + dt),
{
}

/// The modes follow one another in a fixed order: loading, the waiting
/// screens one by one, then free roaming, from which a mini-game opens and to
/// which it returns, at once after a miss and by way of the success display
/// after a hit. `TimeUp` is entered from free roaming only and never left.
pub proof fn lemma_mode_order(pre: World, post: World, dt: int, placed: bool)
    requires
        pre.frame(post, dt, placed),
    ensures
        match pre.mode {
            Mode::Loading => post.mode is Intro1,
            Mode::Intro1 | Mode::Intro2 | Mode::Intro3 | Mode::Controls => post.mode == pre.mode
                || post.mode == pre.mode.next_screen(),
            Mode::FreeRoam => post.mode is FreeRoam || post.mode is RingMinigame
                || post.mode is TimeUp,
            Mode::RingMinigame => post.mode is RingMinigame || post.mode is SuccessDisplay
                || post.mode is FreeRoam,
            Mode::SuccessDisplay => post.mode is SuccessDisplay || post.mode is FreeRoam,
            Mode::TimeUp => post == pre,
        },
{
}

/// The score never falls. It rises by one, short of the largest `u32`, in
/// the frame of a hit, and in no other frame.
pub proof fn lemma_score_rises_on_hits_only(pre: World, post: World, dt: int, placed: bool)
    requires
        pre.frame(post, dt, placed),
    ensures
        post.score >= pre.score,
        post.score == pre.score || post.score == pre.score + 1,
        pre.mode is RingMinigame && post.mode is SuccessDisplay ==> post.score == next_score(
            pre.score,
        ),
        !(pre.mode is RingMinigame && post.mode is SuccessDisplay) ==> post.score == pre.score,
{
}

/// A hit that raises the score to less than `BONUS_THRESHOLD` wins
/// `EARLY_BONUS`, every other hit `LATE_BONUS`.
pub proof fn lemma_bonus_tiers(w: World)
    ensures
        w.hit_resolved().score == next_score(w.score),
        next_score(w.score) < BONUS_THRESHOLD ==> w.hit_resolved().timer == saturate(
            w.timer + EARLY_BONUS,
        ),
        next_score(w.score) >= BONUS_THRESHOLD ==> w.hit_resolved().timer == saturate(
            w.timer + LATE_BONUS,
        ),
{
}

/// Whatever a frame does, it keeps the invariant; in particular no two
/// minions ever stand in each other's exclusion box.
pub proof fn lemma_frame_keeps_minions_spaced(pre: World, post: World, dt: int, placed: bool)
    requires
        pre.wf(),
        0 <= dt <= u32::MAX,
        pre.frame(post, dt, placed),
    ensures
        spaced(post.minions),
{
    match pre.mode {
        Mode::Loading => {
            lemma_run_keeps_spaced(
                pre.minions,
                post.minions,
                pre.screen_width,
                pre.screen_height,
                post.minions.len() as int,
            );
            assert(post.minions.take(post.minions.len() as int) =~= post.minions);
        },
        Mode::RingMinigame => {
            let advanced = pre.ring_advanced(dt);
            lemma_first_near_from(
                advanced.player.pos,
                advanced.minions,
                grab_offset(),
                MINION_REACH as int,
                0,
            );
            match minion_in_reach(advanced.player.pos, advanced.minions) {
                Some(i) => {
                    lemma_remove_keeps_spaced(advanced.minions, i);
                },
                None => {},
            }
            let rest = advanced.without_target();
            if post.minions != advanced.minions && post.minions != rest {
                assert(is_placement(rest, post.minions, pre.screen_width, pre.screen_height));
                lemma_push_keeps_spaced(rest, post.minions.last());
                assert(post.minions =~= rest.push(post.minions.last()));
            }
        },
        _ => {},
    }
}

/// Every prefix of a run of placements onto spaced minions is spaced.
pub proof fn lemma_run_keeps_spaced(
    before: Seq<Actor>,
    after: Seq<Actor>,
    width: u32,
    height: u32,
    k: int,
)
    requires
        spaced(before),
        is_placement_run(before, after, width, height),
        before.len() <= k <= after.len(),
    ensures
        spaced(after.take(k)),
    decreases k,
{
    if k > before.len() {
        lemma_run_keeps_spaced(before, after, width, height, k - 1);
        let shorter = after.take(k - 1);
        let longer = after.take(k - 1 + 1);
        assert(is_placement(shorter, longer, width, height));
        lemma_push_keeps_spaced(shorter, longer.last());
        assert(longer =~= shorter.push(longer.last()));
    }
}

} // verus!
