//! The game's whole in-memory state and the handlers the host loop drives.
//!
//! The host framework owns the window and the event loop; once per frame it
//! hands a tick to `update`, reads the draw projection back, and forwards
//! clicks and key events with plain pixel coordinates and key values. All
//! rules live here and in the entity; the host only performs them.

use vstd::prelude::*;

use crate::coords::{
    grid_axis, round_ratio, Grid, BASE_RESOLUTION_H, BASE_RESOLUTION_W, GRID_SIZE,
};
use crate::direction::Key;
use crate::player::{updated, Player};

verus! {

/// The whole game state: the single entity and the active display
/// resolution in pixels.
#[derive(Clone, Copy, Debug)]
pub struct GameState {
    pub player: Player,
    pub resolution: (u32, u32),
}

/// The grid column (or row) that a click at window coordinate `w` lands in:
/// the coordinate mapped back from the active resolution to the base
/// resolution, then divided into tiles. The column saturates as every
/// grid conversion does.
pub open spec fn clicked_axis(w: int, active: int, base: int) -> u8 {
    grid_axis(w * base / active)
}

/// The tile a click at window position `(x, y)` lands in, given the active
/// resolution.
pub open spec fn clicked_cell(x: int, y: int, resolution: (u32, u32)) -> Grid {
    Grid {
        x: clicked_axis(x, resolution.0 as int, BASE_RESOLUTION_W as int),
        y: clicked_axis(y, resolution.1 as int, BASE_RESOLUTION_H as int),
    }
}

impl GameState {
    /// Well-formed: the entity is, and it carries the same resolution the
    /// game does.
    pub open spec fn wf(self) -> bool {
        &&& self.player.wf()
        &&& self.player.resolution == self.resolution
    }

    /// A fresh game at the given resolution: a new idle entity at the
    /// origin, its animation clock started at the given instant.
    pub fn new(resolution: (u32, u32), now_ms: u64) -> (state: GameState)
        ensures
            state.resolution == resolution,
            state.player == Player::new_spec(resolution, now_ms),
            state.wf(),
    {
        GameState { player: Player::new(resolution, now_ms), resolution }
    }

    /// One tick of the game at instant `now_ms`: the entity's update loop
    /// runs once; nothing else changes.
    pub fn update(&mut self, now_ms: u64)
        requires
            old(self).wf(),
            old(self).player.draw_position.x < u32::MAX,
        ensures
            final(self).player == updated(old(self).player, now_ms),
            final(self).resolution == old(self).resolution,
            final(self).wf(),
    {
        self.player.update(now_ms);
    }

    /// The pixel size of the playing-field rectangle the host paints behind
    /// the entity: the base resolution blown up by the scale factor.
    pub fn background_size(&self) -> (size: (u64, u64))
        ensures
            size.0 == BASE_RESOLUTION_W as int * round_ratio(
                self.resolution.0 as int,
                BASE_RESOLUTION_W as int,
            ),
            size.1 == BASE_RESOLUTION_H as int * round_ratio(
                self.resolution.1 as int,
                BASE_RESOLUTION_H as int,
            ),
    {
        let (sx, sy) = crate::coords::get_scaled_resolution(self.resolution);
        (BASE_RESOLUTION_W as u64 * sx as u64, BASE_RESOLUTION_H as u64 * sy as u64)
    }

    /// A click at window position `(x, y)`: the clicked tile, in base-
    /// resolution coordinates, becomes the entity's destination, effective
    /// from the next tick; nothing else changes.
    pub fn mouse_button_down_event(&mut self, x: u32, y: u32)
        requires
            old(self).resolution.0 > 0,
            old(self).resolution.1 > 0,
        ensures
            *final(self) == (GameState {
                player: Player {
                    grid_destination: clicked_cell(x as int, y as int, old(self).resolution),
                    ..old(self).player
                },
                ..*old(self)
            }),
    {
        let bx = x as u64 * BASE_RESOLUTION_W as u64 / self.resolution.0 as u64;
        let by = y as u64 * BASE_RESOLUTION_H as u64 / self.resolution.1 as u64;
        let gx = bx / GRID_SIZE as u64;
        let gy = by / GRID_SIZE as u64;
        self.player.grid_destination = Grid {
            x: if gx > u8::MAX as u64 {
                u8::MAX
            } else {
                gx as u8
            },
            y: if gy > u8::MAX as u64 {
                u8::MAX
            } else {
                gy as u8
            },
        };
    }

    /// A key going down. The keyboard does not drive anything in the current
    /// behavior: the handler is an inert placeholder and the state is
    /// unchanged.
    pub fn key_down_event(&mut self, key: Key)
        ensures
            *final(self) == *old(self),
    {
        let _ = key;
    }

    /// A key coming up. Only one key acts: `G` sends the entity to the tile
    /// containing pixel (100, 100); every other key leaves the state
    /// unchanged.
    pub fn key_up_event(&mut self, key: Key)
        ensures
            *final(self) == if key == Key::G {
                GameState {
                    player: Player {
                        grid_destination: crate::coords::grid_of(
                            crate::coords::Position { x: 100, y: 100 },
                        ),
                        ..old(self).player
                    },
                    ..*old(self)
                }
            } else {
                *old(self)
            },
    {
        if key == Key::G {
            self.player.move_to_posiiton(100, 100);
        }
    }
}

} // verus!
