//! Movement-key direction flags.
//!
//! Four independent booleans mirror which movement keys are currently held.
//! The flags are part of the entity's state and choose the facing row of the
//! sprite sheet; the update loop itself does not read them, and the keyboard
//! handlers that would drive them are inert placeholders.

use vstd::prelude::*;

verus! {

/// The keys this game distinguishes. Every other key of the host's keyboard
/// maps to `Other`.
#[derive(Clone, Copy, Debug, PartialEq, Eq, Structural)]
pub enum Key {
    Up,
    Down,
    Left,
    Right,
    G,
    Other,
}

/// Which movement keys are currently held, one flag per key.
#[derive(Clone, Copy, Debug, PartialEq, Eq, Structural)]
pub struct Direction {
    pub up: bool,
    pub down: bool,
    pub left: bool,
    pub right: bool,
}

/// `direction` with the flag of `key` set to `down`; unchanged when `key` is
/// no movement key.
pub open spec fn with_key(direction: Direction, key: Key, down: bool) -> Direction {
    match key {
        Key::Up => Direction { up: down, ..direction },
        Key::Down => Direction { down: down, ..direction },
        Key::Left => Direction { left: down, ..direction },
        Key::Right => Direction { right: down, ..direction },
        _ => direction,
    }
}

impl Direction {
    /// Records that a movement key went down (`down == true`) or up
    /// (`down == false`); any other key leaves the flags unchanged.
    pub fn update_from_keycode(&mut self, key: Key, down: bool)
        ensures
            *final(self) == with_key(*old(self), key, down),
    {
        match key {
            Key::Up => self.up = down,
            Key::Down => self.down = down,
            Key::Left => self.left = down,
            Key::Right => self.right = down,
            _ => (),
        };
    }
}

impl Default for Direction {
    /// No key held.
    fn default() -> (d: Direction)
        ensures
            d == (Direction { up: false, down: false, left: false, right: false }),
    {
        Direction { up: false, down: false, left: false, right: false }
    }
}

} // verus!
