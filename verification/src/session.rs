//! The game session and the state machine that advances it frame by frame.

use vstd::prelude::*;
use crate::actor::{
    corpse_at, create_attention, create_body_reminder, create_dead_minion, create_fire,
    create_goal_ring, create_player, create_ring, create_success_marker, Actor, ActorKind,
    RingRole, SUCCESS_LIFE,
};
use crate::chance::draw_between;
use crate::geometry::Vec2;
use crate::input::InputState;
use crate::physics::{
    face_movement, half_extent_of, player_handle_input, restart_walk_cycle,
    update_player_position, MAX_SPEED,
};
use crate::placement::{
    add_minion_retrying, all_clear, arena_fits, is_too_close, lemma_remove_keeps_spaced,
    placement_outcome, spaced, too_close, PLACEMENT_ATTEMPTS,
};
use crate::proximity::{
    burn_corpse, carry_corpse, find_near, minion_in_reach, GRAB_OFFSET_X, MINION_REACH,
};
use crate::ring::{
    judge_rings, judged, ring_in_play, shrink_ring, RingOutcome, GOAL_SCALE_MAX, GOAL_SCALE_MIN,
    RING_LOWER, RING_SWING, RING_UPPER, SHRINK_SPEED_MAX, SHRINK_SPEED_MIN,
};
use crate::units::{saturating_sum, COORD_LIMIT, UNIT};
use crate::world::{
    cast_of, is_placement_run, lemma_burned_on_stage, lemma_carried_on_stage,
    lemma_placed_on_stage, lemma_pushed_on_stage, lemma_removed_on_stage, lemma_run_extends,
    lemma_run_starts, on_stage, Mode, World, ATTENTION_OFFSET_X, BONUS_THRESHOLD, EARLY_BONUS,
    FIRE_INSET, INITIAL_MINIONS, INITIAL_TIMER, LATE_BONUS, PROMPT_OFFSET_Y, REMINDER_OFFSET_X,
};

verus! {

/// A placement was given up: every one of its attempts landed too close to
/// a minion already there.
#[derive(Clone, Copy, Debug, PartialEq, Eq)]
pub struct PlacementExhausted;

/// The whole state of a game: all actors, the input snapshot, the score, the
/// countdown and the mode.
#[derive(Clone, Debug, PartialEq, Eq)]
pub struct Session {
    pub player: Actor,
    pub fire: Actor,
    pub attention: Actor,
    pub body_reminder: Actor,
    pub success_marker: Actor,
    pub minions: Vec<Actor>,
    pub dead_minions: Vec<Actor>,
    /// Index 0 is the indicator, index 1 the goal.
    pub rings: Vec<Actor>,
    pub mode: Mode,
    pub screen_width: u32,
    pub screen_height: u32,
    pub input: InputState,
    pub score: u32,
    /// Time left, in microseconds. At or below zero the game is over.
    pub timer: i64,
}

impl View for Session {
    type V = World;

    open spec fn view(&self) -> World {
        World {
            player: self.player,
            fire: self.fire,
            attention: self.attention,
            body_reminder: self.body_reminder,
            success_marker: self.success_marker,
            minions: self.minions@,
            dead_minions: self.dead_minions@,
            rings: self.rings@,
            mode: self.mode,
            screen_width: self.screen_width,
            screen_height: self.screen_height,
            input: self.input,
            score: self.score,
            timer: self.timer,
        }
    }
}

/// Tells whether an actor is on stage.
pub fn is_on_stage(actor: &Actor, height: u32) -> (r: bool)
    ensures
        r == on_stage(*actor, height),
{
    let limit = 2 * COORD_LIMIT;
    -limit <= actor.pos.x && actor.pos.x <= limit && -limit <= actor.pos.y && actor.pos.y <= limit
        && actor.pos.y >= -half_extent_of(height) && -COORD_LIMIT <= actor.scale.x
        && actor.scale.x <= COORD_LIMIT && -COORD_LIMIT <= actor.scale.y && actor.scale.y
        <= COORD_LIMIT
}

/// Tells whether every actor of a collection has the given kind and is on
/// stage.
pub fn is_cast_of(actors: &Vec<Actor>, kind: ActorKind, height: u32) -> (r: bool)
    ensures
        r == cast_of(actors@, kind, height),
{
    let mut i: usize = 0;
    while i < actors.len()
        invariant
            i <= actors.len(),
            cast_of(actors@.take(i as int), kind, height),
        decreases actors.len() - i,
    {
        if actors[i].kind != kind || !is_on_stage(&actors[i], height) {
            return false;
        }
        proof {
            let shorter = actors@.take(i as int);
            let longer = actors@.take(i as int + 1);
            assert forall|k: int| 0 <= k < longer.len() implies (#[trigger] longer[k]).kind
                == kind && on_stage(longer[k], height) by {
                if k < i {
                    assert(shorter[k] == longer[k]);
                }
            }
        }
        i = i + 1;
    }
    proof {
        assert(actors@.take(actors.len() as int) =~= actors@);
    }
    true
}

/// Tells whether no two minions stand in each other's exclusion box.
pub fn is_spaced(minions: &Vec<Actor>) -> (r: bool)
    ensures
        r == spaced(minions@),
{
    let mut j: usize = 0;
    while j < minions.len()
        invariant
            j <= minions.len(),
            spaced(minions@.take(j as int)),
        decreases minions.len() - j,
    {
        let mut i: usize = 0;
        while i < j
            invariant
                i <= j < minions.len(),
                forall|k: int|
                    0 <= k < i ==> !too_close((#[trigger] minions@[k]).pos, minions@[j as int].pos),
            decreases j - i,
        {
            if is_too_close(minions[i].pos, minions[j].pos) {
                return false;
            }
            i = i + 1;
        }
        proof {
            let shorter = minions@.take(j as int);
            let longer = minions@.take(j as int + 1);
            assert forall|a: int, b: int| 0 <= a < b < longer.len() implies !too_close(
                (#[trigger] longer[a]).pos,
                (#[trigger] longer[b]).pos,
            ) by {
                if b < j {
                    assert(shorter[a] == longer[a] && shorter[b] == longer[b]);
                } else {
                    assert(longer[a] == minions@[a]);
                }
            }
        }
        j = j + 1;
    }
    proof {
        assert(minions@.take(minions.len() as int) =~= minions@);
    }
    true
}

/// Tells whether a ring is in play.
pub fn is_ring_in_play(ring: &Actor) -> (r: bool)
    ensures
        r == ring_in_play(*ring),
{
    let v = ring.velocity;
    let s = ring.scale.x;
    -SHRINK_SPEED_MAX <= v.x && v.x <= SHRINK_SPEED_MAX && -SHRINK_SPEED_MAX <= v.y && v.y
        <= SHRINK_SPEED_MAX && s == ring.scale.y && RING_LOWER - RING_SWING <= s && s
        <= RING_UPPER + RING_SWING && (v.x <= 0 || RING_LOWER <= s) && (v.x >= 0 || s
        <= RING_UPPER)
}

impl Session {
    /// The invariant of a session, see `World::wf`.
    pub open spec fn wf(&self) -> bool {
        self@.wf()
    }

    /// Tells whether the session meets its invariant. A session that was
    /// made by `new` and changed only through the methods of this type always
    /// does; one whose fields were written directly may not.
    pub fn is_well_formed(&self) -> (r: bool)
        ensures
            r == self.wf(),
    {
        let h = self.screen_height;
        if self.screen_width / 2 <= 190 || h / 2 <= 160 {
            return false;
        }
        if self.player.kind != ActorKind::Player || self.fire.kind != ActorKind::Fire
            || self.attention.kind != ActorKind::Attention || self.body_reminder.kind
            != ActorKind::BodyReminder || self.success_marker.kind != ActorKind::SuccessMarker {
            return false;
        }
        let p = self.player;
        if p.pos.x < -COORD_LIMIT || p.pos.x > COORD_LIMIT || p.pos.y < -COORD_LIMIT || p.pos.y
            > COORD_LIMIT || p.velocity.x < -MAX_SPEED || p.velocity.x > MAX_SPEED || p.velocity.y
            < -MAX_SPEED || p.velocity.y > MAX_SPEED {
            return false;
        }
        if !is_on_stage(&self.player, h) || !is_on_stage(&self.fire, h) || !is_on_stage(
            &self.attention,
            h,
        ) || !is_on_stage(&self.body_reminder, h) || !is_on_stage(&self.success_marker, h) {
            return false;
        }
        let left = self.success_marker.life;
        if left <= 0 || left > SUCCESS_LIFE || left % UNIT != 0 {
            return false;
        }
        if self.rings.len() != 2 {
            return false;
        }
        if self.rings[0].kind != ActorKind::Ring(RingRole::Indicator) || self.rings[1].kind
            != ActorKind::Ring(RingRole::Goal) || !is_ring_in_play(&self.rings[0]) || !is_on_stage(
            &self.rings[0],
            h,
        ) || !is_on_stage(&self.rings[1], h) {
            return false;
        }
        is_cast_of(&self.minions, ActorKind::Minion, h) && is_spaced(&self.minions) && is_cast_of(
            &self.dead_minions,
            ActorKind::DeadMinion,
            h,
        )
    }

    /// A new session for a screen of the given size in pixels, or `None` if
    /// the screen is too small to place minions on.
    pub fn new(width: u32, height: u32) -> (r: Option<Session>)
        ensures
            r is Some <==> arena_fits(width, height),
            r matches Some(s) ==> s@ == World::initial(width, height) && s.wf(),
    {
        if width / 2 <= 190 || height / 2 <= 160 {
            return None;
        }
        let mut rings: Vec<Actor> = Vec::new();
        rings.push(create_ring());
        rings.push(create_goal_ring());
        let s = Session {
            player: create_player(),
            fire: create_fire(
                half_extent_of(width) - FIRE_INSET,
                -half_extent_of(height) + FIRE_INSET,
            ),
            attention: create_attention(),
            body_reminder: create_body_reminder(),
            success_marker: create_success_marker(),
            minions: Vec::new(),
            dead_minions: Vec::new(),
            rings,
            mode: Mode::Loading,
            screen_width: width,
            screen_height: height,
            input: InputState::new(),
            score: 0,
            timer: INITIAL_TIMER,
        };
        proof {
            assert(s@.rings =~= World::initial(width, height).rings);
            assert(s@.minions =~= World::initial(width, height).minions);
            assert(s@.dead_minions =~= World::initial(width, height).dead_minions);
        }
        Some(s)
    }

    /// The minion that the player stands at: the first within reach.
    pub fn targeted_minion(&self) -> (r: Option<usize>)
        ensures
            match r {
                Some(i) => minion_in_reach(self.player.pos, self.minions@) == Some(i as int) && i
                    < self.minions.len(),
                None => minion_in_reach(self.player.pos, self.minions@) is None,
            },
    {
        find_near(self.player.pos, &self.minions, Vec2 { x: GRAB_OFFSET_X, y: 0 }, MINION_REACH)
    }

    /// Runs one frame of free roaming: the walk cycle, input, movement,
    /// the turn of the player, prompts, carrying and burning, in this order.
    pub fn update_free_roam(&mut self, dt: u32)
        requires
            old(self).wf(),
        ensures
            final(self)@ == old(self)@.roamed(dt as int),
            final(self).wf(),
    {
        restart_walk_cycle(&mut self.player);
        player_handle_input(&mut self.player, &self.input, dt);
        update_player_position(&mut self.player, self.screen_width, self.screen_height, dt);
        self.attention.pos = self.player.pos.translate(ATTENTION_OFFSET_X, PROMPT_OFFSET_Y);
        self.body_reminder.pos = self.player.pos.translate(REMINDER_OFFSET_X, PROMPT_OFFSET_Y);
        self.attention.life = 0;
        self.body_reminder.life = 0;
        self.player.life = saturating_sum(self.player.life, dt as i64);
        face_movement(&mut self.player);
        match self.targeted_minion() {
            Some(_) => {
                if self.dead_minions.len() == 0 {
                    self.attention.life = UNIT;
                } else {
                    self.body_reminder.life = UNIT;
                }
            },
            None => {},
        }
        proof {
            lemma_carried_on_stage(
                self.dead_minions@,
                self.player,
                self.input.fire,
                self.screen_height,
            );
        }
        carry_corpse(&mut self.dead_minions, self.player.pos, self.input.fire);
        proof {
            lemma_burned_on_stage(
                self.dead_minions@,
                self.fire.pos,
                self.input.fire,
                self.screen_height,
            );
        }
        burn_corpse(&mut self.dead_minions, self.fire.pos, self.input.fire);
    }

    /// Opens the mini-game: uses up the press, resets the indicator to full
    /// size with the given shrink speed, and gives the goal its scale.
    pub fn open_ring_minigame(&mut self, speed: i64, goal: i64)
        requires
            old(self).wf(),
            SHRINK_SPEED_MIN <= speed < SHRINK_SPEED_MAX,
            GOAL_SCALE_MIN <= goal < GOAL_SCALE_MAX,
        ensures
            final(self)@ == old(self)@.ring_opened(speed, goal),
            final(self).wf(),
    {
        self.mode = Mode::RingMinigame;
        self.input.fire = false;
        self.rings[0].scale = Vec2 { x: UNIT, y: UNIT };
        self.rings[0].velocity = Vec2 { x: speed, y: speed };
        self.rings[1].scale = Vec2 { x: goal, y: goal };
        proof {
            assert(self@.rings =~= old(self)@.ring_opened(speed, goal).rings);
        }
    }

    /// Runs one frame of the mini-game: moves the indicator, then judges
    /// it against the goal if the button is pressed.
    pub fn update_ring_minigame(&mut self, dt: u32) -> (outcome: RingOutcome)
        requires
            old(self).wf(),
        ensures
            final(self)@ == old(self)@.ring_advanced(dt as int),
            outcome == judged(final(self)@.rings[0], final(self)@.rings[1], final(self).input.fire),
            final(self).wf(),
    {
        let mut ring = self.rings[0];
        shrink_ring(&mut ring, dt);
        self.rings[0] = ring;
        judge_rings(&self.rings[0], &self.rings[1], self.input.fire)
    }

    /// Books a hit: removes the minion at the player, hides the prompt,
    /// raises the score, extends the countdown and shows the success marker.
    /// The replacement minion is not placed here.
    pub fn resolve_hit(&mut self)
        requires
            old(self).wf(),
        ensures
            final(self)@ == old(self)@.hit_resolved(),
            final(self).wf(),
    {
        match self.targeted_minion() {
            Some(i) => {
                proof {
                    lemma_removed_on_stage(
                        self.minions@,
                        i as int,
                        ActorKind::Minion,
                        self.screen_height,
                    );
                    lemma_remove_keeps_spaced(self.minions@, i as int);
                }
                self.minions.remove(i);
            },
            None => {},
        }
        self.attention.life = 0;
        self.mode = Mode::SuccessDisplay;
        if self.score < u32::MAX {
            self.score = self.score + 1;
        }
        if self.score < BONUS_THRESHOLD {
            self.timer = saturating_sum(self.timer, EARLY_BONUS);
        } else {
            self.timer = saturating_sum(self.timer, LATE_BONUS);
        }
    }

    /// Books a miss: the minion at the player becomes a corpse where it
    /// stood, and free roaming resumes. The replacement minion is not placed
    /// here.
    pub fn resolve_miss(&mut self)
        requires
            old(self).wf(),
        ensures
            final(self)@ == old(self)@.miss_resolved(),
            final(self).wf(),
    {
        match self.targeted_minion() {
            Some(i) => {
                let pos = self.minions[i].pos;
                proof {
                    lemma_removed_on_stage(
                        self.minions@,
                        i as int,
                        ActorKind::Minion,
                        self.screen_height,
                    );
                    lemma_remove_keeps_spaced(self.minions@, i as int);
                    lemma_pushed_on_stage(
                        self.dead_minions@,
                        corpse_at(pos),
                        ActorKind::DeadMinion,
                        self.screen_height,
                    );
                }
                self.dead_minions.push(create_dead_minion(pos.x, pos.y));
                self.minions.remove(i);
            },
            None => {},
        }
        self.mode = Mode::FreeRoam;
    }

    /// Runs one frame of the success display.
    pub fn update_success_display(&mut self, dt: u32)
        requires
            old(self).wf(),
        ensures
            final(self)@ == old(self)@.celebrated(dt as int),
            final(self).wf(),
    {
        self.update_free_roam(dt);
        self.success_marker.life = self.success_marker.life - UNIT;
        if self.success_marker.life == 0 {
            self.success_marker.life = SUCCESS_LIFE;
            self.mode = Mode::FreeRoam;
        }
    }

    /// Lets a waiting screen look at the keyboard: a pressed key moves to
    /// the next screen and is used up, so that a key held down advances one
    /// screen only.
    pub fn consume_key(&mut self)
        ensures
            final(self)@ == old(self)@.key_consumed(),
    {
        if self.input.any_key {
            self.mode = match self.mode {
                Mode::Intro1 => Mode::Intro2,
                Mode::Intro2 => Mode::Intro3,
                Mode::Intro3 => Mode::Controls,
                Mode::Controls => Mode::FreeRoam,
                other => other,
            };
            self.input.any_key = false;
        }
    }

    /// Places the minions that a game starts with, giving each placement
    /// up after `PLACEMENT_ATTEMPTS` attempts, and moves to the first intro
    /// screen whatever came of them. Returns whether all were placed.
    pub fn load(&mut self, rng: &mut rand::ThreadRng) -> (placed: bool)
        requires
            old(self).wf(),
        ensures
            final(self).wf(),
            final(self)@ == (World {
                minions: final(self)@.minions,
                mode: Mode::Intro1,
                ..old(self)@
            }),
            is_placement_run(
                old(self)@.minions,
                final(self)@.minions,
                old(self).screen_width,
                old(self).screen_height,
            ),
            final(self)@.minions.len() <= old(self)@.minions.len() + INITIAL_MINIONS,
            placed == (final(self)@.minions.len() == old(self)@.minions.len() + INITIAL_MINIONS),
            all_clear(old(self)@.minions, old(self).screen_width, old(self).screen_height)
                ==> final(self)@.minions.len() > old(self)@.minions.len(),
    {
        let mut placed_all = true;
        let mut count: usize = 0;
        proof {
            lemma_run_starts(self.minions@, self.screen_width, self.screen_height);
        }
        while count < INITIAL_MINIONS
            invariant
                count <= INITIAL_MINIONS,
                self.wf(),
                self@ == (World { minions: self@.minions, ..old(self)@ }),
                is_placement_run(
                    old(self)@.minions,
                    self@.minions,
                    self.screen_width,
                    self.screen_height,
                ),
                self@.minions.len() <= old(self)@.minions.len() + count,
                placed_all == (self@.minions.len() == old(self)@.minions.len() + count),
                all_clear(old(self)@.minions, self.screen_width, self.screen_height) && count > 0
                    ==> self@.minions.len() > old(self)@.minions.len(),
            decreases INITIAL_MINIONS - count,
        {
            let ghost before = self.minions@;
            proof {
                if count == 0 {
                    assert(before.take(before.len() as int) =~= before);
                    assert(before == old(self)@.minions);
                }
            }
            let placed = add_minion_retrying(
                &mut self.minions,
                rng,
                self.screen_width,
                self.screen_height,
                PLACEMENT_ATTEMPTS,
            );
            proof {
                lemma_run_extends(
                    old(self)@.minions,
                    before,
                    self.minions@,
                    self.screen_width,
                    self.screen_height,
                    placed,
                );
                lemma_placed_on_stage(
                    before,
                    self.minions@,
                    self.screen_width,
                    self.screen_height,
                    placed,
                );
            }
            if !placed {
                placed_all = false;
            }
            count = count + 1;
        }
        self.mode = Mode::Intro1;
        placed_all
    }

    /// Places the minion that replaces one taken by the mini-game, giving
    /// up after `PLACEMENT_ATTEMPTS` attempts. Returns whether it was placed.
    pub fn replace_minion(&mut self, rng: &mut rand::ThreadRng) -> (placed: bool)
        requires
            old(self).wf(),
        ensures
            final(self).wf(),
            final(self)@ == (World { minions: final(self)@.minions, ..old(self)@ }),
            placement_outcome(
                old(self)@.minions,
                final(self)@.minions,
                old(self).screen_width,
                old(self).screen_height,
                placed,
            ),
            all_clear(old(self)@.minions, old(self).screen_width, old(self).screen_height)
                ==> placed,
    {
        let ghost before = self.minions@;
        let placed = add_minion_retrying(
            &mut self.minions,
            rng,
            self.screen_width,
            self.screen_height,
            PLACEMENT_ATTEMPTS,
        );
        proof {
            lemma_placed_on_stage(
                before,
                self.minions@,
                self.screen_width,
                self.screen_height,
                placed,
            );
        }
        placed
    }

    /// Advances the game by one frame of `dt` microseconds.
    ///
    /// The mode decides what the frame does, see `World::frame`. Afterwards
    /// the countdown runs in the modes that count down. The result is an
    /// error when a minion that the frame called for could not be placed;
    /// the frame is complete in every other respect even then.
    pub fn update(&mut self, rng: &mut rand::ThreadRng, dt: u32) -> (r: Result<
        (),
        PlacementExhausted,
    >)
        requires
            old(self).wf(),
        ensures
            final(self).wf(),
            old(self)@.frame(final(self)@, dt as int, r is Ok),
    {
        let mut placed = true;
        match self.mode {
            Mode::FreeRoam => {
                self.update_free_roam(dt);
                if self.attention.life == UNIT && self.input.fire {
                    let speed = draw_between(rng, SHRINK_SPEED_MIN, SHRINK_SPEED_MAX);
                    let goal = draw_between(rng, GOAL_SCALE_MIN, GOAL_SCALE_MAX);
                    self.open_ring_minigame(speed, goal);
                }
                if self.timer <= 0 {
                    self.mode = Mode::TimeUp;
                }
            },
            Mode::RingMinigame => {
                match self.update_ring_minigame(dt) {
                    RingOutcome::Hit => {
                        self.resolve_hit();
                        placed = self.replace_minion(rng);
                    },
                    RingOutcome::Miss => {
                        self.resolve_miss();
                        placed = self.replace_minion(rng);
                    },
                    RingOutcome::Pending => {},
                }
            },
            Mode::SuccessDisplay => {
                self.update_success_display(dt);
            },
            Mode::Loading => {
                placed = self.load(rng);
            },
            Mode::Intro1 | Mode::Intro2 | Mode::Intro3 | Mode::Controls => {
                self.consume_key();
            },
            Mode::TimeUp => {},
        }
        if self.mode.is_counting_down() {
            self.timer = saturating_sum(self.timer, -(dt as i64));
        }
        if placed {
            Ok(())
        } else {
            Err(PlacementExhausted)
        }
    }
}

} // verus!
