//! What a renderer has to draw: sprites, screen positions and scales.

use vstd::prelude::*;
use crate::actor::{Actor, ActorKind};
use crate::geometry::Vec2;
use crate::physics::{facing_toward, half_extent, half_extent_of, is_walking, STRIDE};
use crate::session::Session;
use crate::units::{trunc_div, COORD_LIMIT, UNIT};
use crate::world::{on_stage, Mode, World};

verus! {

/// An image of the game.
#[derive(Clone, Copy, Debug, PartialEq, Eq, Structural)]
pub enum Sprite {
    Minion,
    DeadMinion,
    Ring,
    SuccessMarker,
    Attention,
    BodyReminder,
    Fire,
    Player1Right,
    Player2Right,
    Player3Right,
    Player1Left,
    Player2Left,
    Player3Left,
    LoadingScreen,
    IntroScreen1,
    IntroScreen2,
    IntroScreen3,
    ControlsScreen,
    EndScreen,
}

/// One image to draw: which, where on the screen, turned and scaled how.
/// `dest` has its origin in the top left corner and y pointing down.
#[derive(Clone, Copy, Debug, PartialEq, Eq, Structural)]
pub struct DrawCommand {
    pub sprite: Sprite,
    pub dest: Vec2,
    pub rotation: i64,
    pub scale: Vec2,
}

/// The numbers of the head-up display.
#[derive(Clone, Copy, Debug, PartialEq, Eq, Structural)]
pub struct Hud {
    pub score: u32,
    /// Whole seconds left; zero once the countdown has run out.
    pub seconds: u32,
}

/// The image that stands for an actor of the given kind.
pub open spec fn sprite_of(kind: ActorKind) -> Sprite {
    match kind {
        ActorKind::Minion => Sprite::Minion,
        ActorKind::Attention => Sprite::Attention,
        ActorKind::SuccessMarker => Sprite::SuccessMarker,
        ActorKind::Ring(_) => Sprite::Ring,
        ActorKind::DeadMinion => Sprite::DeadMinion,
        ActorKind::Fire => Sprite::Fire,
        ActorKind::Player => Sprite::Player1Right,
        ActorKind::BodyReminder => Sprite::BodyReminder,
    }
}

/// The screen position of a point of the world: the world has its origin
/// in the centre of the screen and y pointing up.
pub open spec fn on_screen(width: u32, height: u32, point: Vec2) -> Vec2 {
    Vec2 {
        x: (point.x + width * (UNIT / 2)) as i64,
        y: (height * UNIT - (point.y + height * (UNIT / 2))) as i64,
    }
}

/// The factor by which an actor at height `y` is drawn smaller or larger:
/// actors further up the screen are further away. It is five screen heights
/// over the actor's distance from a point five and a half screen heights
/// below the centre.
pub open spec fn depth_factor(height: u32, y: int) -> int {
    (5 * height * UNIT * UNIT) / (y + height * 5_500_000)
}

/// A scale multiplied by a factor.
pub open spec fn scaled_by(scale: Vec2, factor: int) -> Vec2 {
    Vec2 {
        x: trunc_div(scale.x * factor, UNIT as int) as i64,
        y: trunc_div(scale.y * factor, UNIT as int) as i64,
    }
}

/// Actors of these kinds are drawn with depth.
pub open spec fn has_depth(kind: ActorKind) -> bool {
    kind is Minion || kind is DeadMinion || kind is Attention || kind is BodyReminder
}

/// How an actor other than the walking player is drawn.
pub open spec fn actor_drawn(actor: Actor, width: u32, height: u32) -> DrawCommand {
    DrawCommand {
        sprite: sprite_of(actor.kind),
        dest: on_screen(width, height, actor.pos),
        rotation: 0,
        scale: if has_depth(actor.kind) {
            scaled_by(actor.scale, depth_factor(height, actor.pos.y as int))
        } else {
            actor.scale
        },
    }
}

/// The image of the player: by the side it faces once it has turned the
/// way it moves, and while walking by the band of the walk cycle that its
/// `life` is in.
pub open spec fn player_sprite(player: Actor) -> Sprite {
    let right = facing_toward(player.velocity.x as int, player.facing) == 1;
    let life = player.life;
    if is_walking(player) && 0 <= life < STRIDE {
        if right {
            Sprite::Player2Right
        } else {
            Sprite::Player2Left
        }
    } else if is_walking(player) && STRIDE <= life < 2 * STRIDE {
        if right {
            Sprite::Player3Right
        } else {
            Sprite::Player3Left
        }
    } else {
        if right {
            Sprite::Player1Right
        } else {
            Sprite::Player1Left
        }
    }
}

/// How the roaming player is drawn. Always with depth.
pub open spec fn player_drawn(player: Actor, width: u32, height: u32) -> DrawCommand {
    DrawCommand {
        sprite: player_sprite(player),
        dest: on_screen(width, height, player.pos),
        rotation: 0,
        scale: scaled_by(player.scale, depth_factor(height, player.pos.y as int)),
    }
}

/// A full-screen image, anchored in the middle of the screen.
pub open spec fn screen_drawn(sprite: Sprite, width: u32, height: u32) -> DrawCommand {
    DrawCommand {
        sprite,
        dest: Vec2 { x: half_extent(width) as i64, y: half_extent(height) as i64 },
        rotation: 0,
        scale: Vec2 { x: UNIT, y: UNIT },
    }
}

/// What the display shows of a countdown: its whole seconds, none below
/// zero and no more than a `u32` holds.
pub open spec fn seconds_left(timer: int) -> int {
    if timer <= 0 {
        0
    } else if timer / (UNIT as int) > u32::MAX {
        u32::MAX as int
    } else {
        timer / (UNIT as int)
    }
}

/// How each actor of a collection is drawn, in order.
pub open spec fn cast_drawn(actors: Seq<Actor>, width: u32, height: u32) -> Seq<DrawCommand> {
    Seq::new(actors.len(), |i: int| actor_drawn(actors[i], width, height))
}

impl World {
    /// The prompts that are up, attention first.
    pub open spec fn prompts(self) -> Seq<DrawCommand> {
        let attention = if self.attention.life == UNIT {
            seq![actor_drawn(self.attention, self.screen_width, self.screen_height)]
        } else {
            Seq::empty()
        };
        let reminder = if self.body_reminder.life == UNIT {
            seq![actor_drawn(self.body_reminder, self.screen_width, self.screen_height)]
        } else {
            Seq::empty()
        };
        attention + reminder
    }

    /// Everything to draw this frame, back to front.
    ///
    /// While roaming: the minions, the fire, the corpses and the player,
    /// then the prompts that are up; the corpses come after the player
    /// while the button is held, so that a carried corpse covers the player.
    /// In the mini-game: the indicator and the goal. In the success
    /// display: the player and the marker. Else the mode's screen.
    pub open spec fn scene(self) -> Seq<DrawCommand> {
        let w = self.screen_width;
        let h = self.screen_height;
        match self.mode {
            Mode::FreeRoam => {
                let backdrop = cast_drawn(self.minions, w, h) + seq![actor_drawn(self.fire, w, h)];
                let corpses = cast_drawn(self.dead_minions, w, h);
                let player = seq![player_drawn(self.player, w, h)];
                let middle = if self.input.fire {
                    player + corpses
                } else {
                    corpses + player
                };
                backdrop + middle + self.prompts()
            },
            Mode::RingMinigame => seq![
                actor_drawn(self.rings[0], w, h),
                actor_drawn(self.rings[1], w, h),
            ],
            Mode::SuccessDisplay => seq![
                actor_drawn(self.player, w, h),
                actor_drawn(self.success_marker, w, h),
            ],
            Mode::Loading => seq![screen_drawn(Sprite::LoadingScreen, w, h)],
            Mode::Intro1 => seq![screen_drawn(Sprite::IntroScreen1, w, h)],
            Mode::Intro2 => seq![screen_drawn(Sprite::IntroScreen2, w, h)],
            Mode::Intro3 => seq![screen_drawn(Sprite::IntroScreen3, w, h)],
            Mode::Controls => seq![screen_drawn(Sprite::ControlsScreen, w, h)],
            Mode::TimeUp => seq![screen_drawn(Sprite::EndScreen, w, h)],
        }
    }

    /// The head-up display, shown in the modes that count down.
    pub open spec fn hud(self) -> Option<Hud> {
        if self.mode.counts_down() {
            Some(Hud { score: self.score, seconds: seconds_left(self.timer as int) as u32 })
        } else {
            None
        }
    }
}

/// Maps a point of the world to its place on the screen.
pub fn world_to_screen_coords(width: u32, height: u32, point: Vec2) -> (r: Vec2)
    requires
        point.within(2 * COORD_LIMIT),
    ensures
        r == on_screen(width, height, point),
{
    let x = point.x + width as i64 * (UNIT / 2);
    let y = height as i64 * UNIT - (point.y + height as i64 * (UNIT / 2));
    Vec2 { x, y }
}

proof fn lemma_depth_factor(height: u32, y: int)
    requires
        height > 0,
        y >= -half_extent(height),
    ensures
        0 <= depth_factor(height, y) <= UNIT,
        y + height * 5_500_000 > 0,
{
    let den = y + height * 5_500_000;
    let num = 5 * height * UNIT * UNIT;
    assert(den >= 5 * height * UNIT);
    assert(num == (5 * height * UNIT) * UNIT);
    assert(0 <= num / den <= UNIT) by (nonlinear_arith)
        requires
            0 < den,
            0 <= num <= den * UNIT,
    ;
}

/// The depth factor of an actor at height `y`.
pub fn depth_scale(height: u32, y: i64) -> (r: i64)
    requires
        height > 0,
        y >= -half_extent(height),
    ensures
        r == depth_factor(height, y as int),
        0 <= r <= UNIT,
{
    proof {
        lemma_depth_factor(height, y as int);
    }
    let num: i128 = 5 * (height as i128) * (UNIT as i128) * (UNIT as i128);
    let den: i128 = y as i128 + (height as i128) * 5_500_000;
    (num / den) as i64
}

proof fn lemma_scaled_by(c: int, factor: int)
    requires
        -COORD_LIMIT <= c <= COORD_LIMIT,
        0 <= factor <= UNIT,
    ensures
        -COORD_LIMIT <= trunc_div(c * factor, UNIT as int) <= COORD_LIMIT,
        -0x1_0000_0000_0000_0000_0000 <= c * factor <= 0x1_0000_0000_0000_0000_0000,
{
    assert(-COORD_LIMIT * UNIT <= c * factor <= COORD_LIMIT * UNIT) by (nonlinear_arith)
        requires
            -COORD_LIMIT <= c <= COORD_LIMIT,
            0 <= factor <= UNIT,
    ;
}

fn scale_by(scale: Vec2, factor: i64) -> (r: Vec2)
    requires
        scale.within(COORD_LIMIT as int),
        0 <= factor <= UNIT,
    ensures
        r == scaled_by(scale, factor as int),
{
    proof {
        lemma_scaled_by(scale.x as int, factor as int);
        lemma_scaled_by(scale.y as int, factor as int);
    }
    let x: i128 = (scale.x as i128 * factor as i128) / (UNIT as i128);
    let y: i128 = (scale.y as i128 * factor as i128) / (UNIT as i128);
    Vec2 { x: x as i64, y: y as i64 }
}

/// The image that stands for an actor of the given kind.
pub fn actor_image(kind: ActorKind) -> (r: Sprite)
    ensures
        r == sprite_of(kind),
{
    match kind {
        ActorKind::Minion => Sprite::Minion,
        ActorKind::Attention => Sprite::Attention,
        ActorKind::SuccessMarker => Sprite::SuccessMarker,
        ActorKind::Ring(_) => Sprite::Ring,
        ActorKind::DeadMinion => Sprite::DeadMinion,
        ActorKind::Fire => Sprite::Fire,
        ActorKind::Player => Sprite::Player1Right,
        ActorKind::BodyReminder => Sprite::BodyReminder,
    }
}

/// Says how to draw an actor: minions, corpses and the two prompts with
/// depth, all others at their own scale.
pub fn draw_actor(actor: &Actor, width: u32, height: u32) -> (r: DrawCommand)
    requires
        height > 0,
        on_stage(*actor, height),
    ensures
        r == actor_drawn(*actor, width, height),
{
    let dest = world_to_screen_coords(width, height, actor.pos);
    let deep = match actor.kind {
        ActorKind::Minion | ActorKind::DeadMinion | ActorKind::Attention
        | ActorKind::BodyReminder => true,
        _ => false,
    };
    let scale = if deep {
        scale_by(actor.scale, depth_scale(height, actor.pos.y))
    } else {
        actor.scale
    };
    DrawCommand { sprite: actor_image(actor.kind), dest, rotation: 0, scale }
}

/// Says how to draw the roaming player: with depth, on the side that it
/// faces once it has turned the way it moves, and while it walks with the
/// image of the band of the walk cycle that its `life` is in.
pub fn draw_player(player: &Actor, width: u32, height: u32) -> (r: DrawCommand)
    requires
        height > 0,
        on_stage(*player, height),
    ensures
        r == player_drawn(*player, width, height),
{
    let dest = world_to_screen_coords(width, height, player.pos);
    let right = if player.velocity.x > 0 {
        true
    } else if player.velocity.x < 0 {
        false
    } else {
        player.facing == 1
    };
    let walking = player.velocity.x != 0 || player.velocity.y != 0;
    let sprite = if walking && player.life >= 0 && player.life < STRIDE {
        if right {
            Sprite::Player2Right
        } else {
            Sprite::Player2Left
        }
    } else if walking && player.life >= STRIDE && player.life < 2 * STRIDE {
        if right {
            Sprite::Player3Right
        } else {
            Sprite::Player3Left
        }
    } else {
        if right {
            Sprite::Player1Right
        } else {
            Sprite::Player1Left
        }
    };
    let scale = scale_by(player.scale, depth_scale(height, player.pos.y));
    DrawCommand { sprite, dest, rotation: 0, scale }
}

/// Says how to draw a full-screen image.
pub fn draw_screen(sprite: Sprite, width: u32, height: u32) -> (r: DrawCommand)
    ensures
        r == screen_drawn(sprite, width, height),
{
    DrawCommand {
        sprite,
        dest: Vec2 { x: half_extent_of(width), y: half_extent_of(height) },
        rotation: 0,
        scale: Vec2 { x: UNIT, y: UNIT },
    }
}

/// Appends the drawing of every actor of a cast.
fn draw_cast(commands: &mut Vec<DrawCommand>, actors: &Vec<Actor>, width: u32, height: u32)
    requires
        height > 0,
        forall|i: int| 0 <= i < actors.len() ==> on_stage(#[trigger] actors[i], height),
    ensures
        final(commands)@ == old(commands)@ + cast_drawn(actors@, width, height),
{
    let mut i: usize = 0;
    while i < actors.len()
        invariant
            i <= actors.len(),
            height > 0,
            forall|k: int| 0 <= k < actors.len() ==> on_stage(#[trigger] actors[k], height),
            commands@ == old(commands)@ + cast_drawn(actors@.take(i as int), width, height),
        decreases actors.len() - i,
    {
        let command = draw_actor(&actors[i], width, height);
        proof {
            assert(cast_drawn(actors@.take(i as int + 1), width, height) =~= cast_drawn(
                actors@.take(i as int),
                width,
                height,
            ).push(command));
        }
        commands.push(command);
        i = i + 1;
        proof {
            assert(commands@ =~= old(commands)@ + cast_drawn(
                actors@.take(i as int),
                width,
                height,
            ));
        }
    }
    proof {
        assert(actors@.take(actors.len() as int) =~= actors@);
    }
}

impl Session {
    /// Everything to draw this frame, back to front. Drawing reads the
    /// session and leaves it as it is.
    pub fn draw(&self) -> (commands: Vec<DrawCommand>)
        requires
            self.wf(),
        ensures
            commands@ == self@.scene(),
    {
        let w = self.screen_width;
        let h = self.screen_height;
        let mut commands: Vec<DrawCommand> = Vec::new();
        match self.mode {
            Mode::FreeRoam => {
                draw_cast(&mut commands, &self.minions, w, h);
                commands.push(draw_actor(&self.fire, w, h));
                if !self.input.fire {
                    draw_cast(&mut commands, &self.dead_minions, w, h);
                }
                commands.push(draw_player(&self.player, w, h));
                if self.input.fire {
                    draw_cast(&mut commands, &self.dead_minions, w, h);
                }
                if self.attention.life == UNIT {
                    commands.push(draw_actor(&self.attention, w, h));
                }
                if self.body_reminder.life == UNIT {
                    commands.push(draw_actor(&self.body_reminder, w, h));
                }
            },
            Mode::RingMinigame => {
                commands.push(draw_actor(&self.rings[0], w, h));
                commands.push(draw_actor(&self.rings[1], w, h));
            },
            Mode::SuccessDisplay => {
                commands.push(draw_actor(&self.player, w, h));
                commands.push(draw_actor(&self.success_marker, w, h));
            },
            Mode::Loading => {
                commands.push(draw_screen(Sprite::LoadingScreen, w, h));
            },
            Mode::Intro1 => {
                commands.push(draw_screen(Sprite::IntroScreen1, w, h));
            },
            Mode::Intro2 => {
                commands.push(draw_screen(Sprite::IntroScreen2, w, h));
            },
            Mode::Intro3 => {
                commands.push(draw_screen(Sprite::IntroScreen3, w, h));
            },
            Mode::Controls => {
                commands.push(draw_screen(Sprite::ControlsScreen, w, h));
            },
            Mode::TimeUp => {
                commands.push(draw_screen(Sprite::EndScreen, w, h));
            },
        }
        proof {
            assert(commands@ =~= self@.scene());
        }
        commands
    }

    /// The numbers to show in the head-up display, if it is shown.
    pub fn update_ui(&self) -> (hud: Option<Hud>)
        ensures
            hud == self@.hud(),
    {
        match self.mode {
            Mode::FreeRoam | Mode::RingMinigame | Mode::SuccessDisplay => {
                let seconds: u32 = if self.timer <= 0 {
                    0
                } else if self.timer / UNIT > u32::MAX as i64 {
                    u32::MAX
                } else {
                    (self.timer / UNIT) as u32
                };
                Some(Hud { score: self.score, seconds })
            },
            _ => None,
        }
    }
}

} // verus!
