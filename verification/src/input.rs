//! The device-independent input snapshot.

use vstd::prelude::*;

verus! {

/// The controls the game listens to; every other key is `Other`.
#[derive(Clone, Copy, Debug, PartialEq, Eq, Structural)]
pub enum Key {
    W,
    A,
    S,
    D,
    Up,
    Down,
    Left,
    Right,
    Space,
    Other,
}

/// What is held down right now.
///
/// The snapshot is updated by key transitions and never reset between
/// frames, so a held key persists until it is released. Each axis is `-1`,
/// `0` or `1`; the last key event on an axis wins.
#[derive(Clone, Copy, Debug, PartialEq, Eq, Structural)]
pub struct InputState {
    pub xaxis: i8,
    pub yaxis: i8,
    pub fire: bool,
    pub any_key: bool,
}

impl InputState {
    /// Nothing held.
    pub open spec fn idle() -> InputState {
        InputState { xaxis: 0, yaxis: 0, fire: false, any_key: false }
    }

    /// The snapshot after `key` goes down: its axis or button is set at
    /// once, and any key at all raises `any_key`.
    pub open spec fn pressed(self, key: Key) -> InputState {
        let raised = InputState { any_key: true, ..self };
        match key {
            Key::W | Key::Up => InputState { yaxis: 1, ..raised },
            Key::S | Key::Down => InputState { yaxis: -1i8, ..raised },
            Key::A | Key::Left => InputState { xaxis: -1i8, ..raised },
            Key::D | Key::Right => InputState { xaxis: 1, ..raised },
            Key::Space => InputState { fire: true, ..raised },
            Key::Other => raised,
        }
    }

    /// The snapshot after `key` goes up: its axis is centred or its button
    /// released, and any key at all lowers `any_key`.
    pub open spec fn released(self, key: Key) -> InputState {
        let lowered = InputState { any_key: false, ..self };
        match key {
            Key::W | Key::S | Key::Up | Key::Down => InputState { yaxis: 0, ..lowered },
            Key::A | Key::D | Key::Left | Key::Right => InputState { xaxis: 0, ..lowered },
            Key::Space => InputState { fire: false, ..lowered },
            Key::Other => lowered,
        }
    }

    pub fn new() -> (input: InputState)
        ensures
            input == InputState::idle(),
    {
        InputState { xaxis: 0, yaxis: 0, fire: false, any_key: false }
    }

    /// Records that `key` went down.
    pub fn key_down(&mut self, key: Key)
        ensures
            *final(self) == old(self).pressed(key),
    {
        self.any_key = true;
        match key {
            Key::W | Key::Up => {
                self.yaxis = 1;
            },
            Key::S | Key::Down => {
                self.yaxis = -1;
            },
            Key::A | Key::Left => {
                self.xaxis = -1;
            },
            Key::D | Key::Right => {
                self.xaxis = 1;
            },
            Key::Space => {
                self.fire = true;
            },
            Key::Other => {},
        }
    }

    /// Records that `key` went up.
    pub fn key_up(&mut self, key: Key)
        ensures
            *final(self) == old(self).released(key),
    {
        self.any_key = false;
        match key {
            Key::W | Key::S | Key::Up | Key::Down => {
                self.yaxis = 0;
            },
            Key::A | Key::D | Key::Left | Key::Right => {
                self.xaxis = 0;
            },
            Key::Space => {
                self.fire = false;
            },
            Key::Other => {},
        }
    }
}

impl Default for InputState {
    fn default() -> (input: InputState)
        ensures
            input == InputState::idle(),
    {
        InputState::new()
    }
}

} // verus!
