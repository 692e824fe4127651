//! The single playable entity and its per-tick update.
//!
//! The entity owns a pixel render position, the tile it currently occupies,
//! a destination tile, the held-key direction flags, a moving flag and an
//! animated sprite. Each tick, while its current grid column differs from
//! its destination column, it steps one pixel along the x axis and
//! recomputes its tile from the new position; the moving flag holds exactly
//! while the columns still differ, and gates the animation clock.

use vstd::prelude::*;

use crate::animation::{advanced, AnimationFrames};
use crate::coords::{
    get_scaled_resolution, grid_axis, grid_of, round_ratio, Grid, Position, BASE_RESOLUTION_H,
    BASE_RESOLUTION_W, GRID_SIZE,
};
use crate::direction::Direction;

verus! {

/// How many frames the entity's walking animation has.
pub const PLAYER_TOTAL_FRAMES: u8 = 4;

/// An animated sprite: the animation clock of its sheet, if it is animated
/// at all. The image itself lives with the host renderer; this library holds
/// only the state that chooses which cell of the sheet to show.
#[derive(Clone, Copy, Debug)]
pub struct Sprite {
    pub frames: Option<AnimationFrames>,
}

impl Sprite {
    /// Well-formed: the animation clock, if present, is.
    pub open spec fn wf(self) -> bool {
        match self.frames {
            Some(frames) => frames.wf(),
            None => true,
        }
    }

    /// A sprite whose animation starts at frame 0 at the given instant.
    pub fn new(total_frames: u8, now_ms: u64) -> (sprite: Sprite)
        requires
            0 < total_frames,
        ensures
            sprite == (Sprite {
                frames: Some(AnimationFrames {
                    animation_frame: 0,
                    animation_total_frames: total_frames,
                    last_animation: Some(now_ms),
                }),
            }),
            sprite.wf(),
    {
        Sprite { frames: Some(AnimationFrames::new(total_frames, now_ms)) }
    }
}

/// The sprite with its animation clock advanced at instant `now`; a sprite
/// without a clock is unchanged.
pub open spec fn sprite_advanced(sprite: Sprite, now: u64) -> Sprite {
    match sprite.frames {
        Some(frames) => Sprite { frames: Some(advanced(frames, now)) },
        None => sprite,
    }
}

/// The playable character: its render position in pixels, the tile it is on,
/// the tile it is headed to, the held-key flags, whether it is in motion,
/// and its sprite.
#[derive(Clone, Copy, Debug)]
pub struct Player {
    pub resolution: (u32, u32),
    pub draw_position: Position,
    pub grid_position: Grid,
    pub grid_destination: Grid,
    pub direction: Direction,
    pub is_moving: bool,
    pub sprite: Sprite,
}

/// The sprite-sheet row the entity faces, as a quarter of the sheet's
/// height: a fixed priority over the held keys — up first, then left, then
/// right, and the down/default row otherwise.
pub open spec fn direction_row(direction: Direction) -> u8 {
    if direction.up {
        1
    } else if direction.left {
        2
    } else if direction.right {
        3
    } else {
        0
    }
}

/// The entity after the movement phase of one tick: one pixel along x and
/// the tile recomputed, if its column still differs from the destination
/// column; untouched otherwise.
pub open spec fn moved(player: Player) -> Player {
    if player.grid_position.x != player.grid_destination.x {
        let position = Position {
            x: (player.draw_position.x + 1) as u32,
            y: player.draw_position.y,
        };
        Player { draw_position: position, grid_position: grid_of(position), ..player }
    } else {
        player
    }
}

/// The entity after one whole tick at instant `now`: the movement phase,
/// the moving flag recomputed from the new column, and — only while moving —
/// the animation clock advanced.
pub open spec fn updated(player: Player, now: u64) -> Player {
    let stepped = moved(player);
    let flagged = Player {
        is_moving: stepped.grid_position.x != stepped.grid_destination.x,
        ..stepped
    };
    if flagged.is_moving {
        Player { sprite: sprite_advanced(flagged.sprite, now), ..flagged }
    } else {
        flagged
    }
}

/// The entity after a whole run of ticks, one per instant in `times`, in
/// order.
pub open spec fn run_updates(player: Player, times: Seq<u64>) -> Player
    decreases times.len(),
{
    if times.len() == 0 {
        player
    } else {
        run_updates(updated(player, times[0]), times.subrange(1, times.len() as int))
    }
}

impl Player {
    /// Well-formed: the sprite is, and the tile on record is the tile of the
    /// render position. The constructor establishes this and every method
    /// preserves it.
    pub open spec fn wf(self) -> bool {
        &&& self.sprite.wf()
        &&& self.grid_position == grid_of(self.draw_position)
    }

    /// The entity `Player::new` returns: at the origin tile, idle, headed
    /// nowhere, with a fresh four-frame animation clock.
    pub open spec fn new_spec(resolution: (u32, u32), now_ms: u64) -> Player {
        Player {
            resolution,
            draw_position: Position { x: 0, y: 0 },
            grid_position: Grid { x: 0, y: 0 },
            grid_destination: Grid { x: 0, y: 0 },
            direction: Direction { up: false, down: false, left: false, right: false },
            is_moving: false,
            sprite: Sprite {
                frames: Some(AnimationFrames {
                    animation_frame: 0,
                    animation_total_frames: PLAYER_TOTAL_FRAMES,
                    last_animation: Some(now_ms),
                }),
            },
        }
    }

    /// A new entity at the origin tile, idle, headed nowhere, with a fresh
    /// four-frame animation clock.
    pub fn new(resolution: (u32, u32), now_ms: u64) -> (player: Player)
        ensures
            player == Player::new_spec(resolution, now_ms),
            player.wf(),
    {
        Player {
            draw_position: Position::default(),
            grid_position: Grid::default(),
            grid_destination: Grid::default(),
            direction: Direction::default(),
            resolution,
            is_moving: false,
            sprite: Sprite::new(PLAYER_TOTAL_FRAMES, now_ms),
        }
    }

    /// Advances the sprite's animation clock at instant `now_ms`; an entity
    /// whose sprite has no clock is unchanged.
    pub fn animate_frames(&mut self, now_ms: u64)
        requires
            old(self).sprite.wf(),
        ensures
            *final(self) == (Player { sprite: sprite_advanced(old(self).sprite, now_ms), ..*old(self) }),
            final(self).sprite.wf(),
    {
        if let Some(mut frames) = self.sprite.frames {
            frames.advance(now_ms);
            self.sprite.frames = Some(frames);
        }
    }

    /// The facing row of the sprite sheet, as a quarter of the sheet: the
    /// up row wins over left, left over right, and the down/default row is
    /// shown when no such key is held.
    pub fn get_animation_direction(&self) -> (row: u8)
        ensures
            row == direction_row(self.direction),
    {
        if self.direction.up {
            1
        } else if self.direction.left {
            2
        } else if self.direction.right {
            3
        } else {
            0
        }
    }

    /// One tick of the update loop at instant `now_ms`: while the current
    /// grid column differs from the destination column, the render position
    /// steps one pixel along x and the tile is recomputed from it; the
    /// moving flag then holds exactly while the columns still differ, and
    /// while it holds the animation clock advances.
    pub fn update(&mut self, now_ms: u64)
        requires
            old(self).wf(),
            old(self).draw_position.x < u32::MAX,
        ensures
            *final(self) == updated(*old(self), now_ms),
            final(self).wf(),
    {
        if self.grid_position.x != self.grid_destination.x {
            self.draw_position.x = self.draw_position.x + 1;
            self.grid_position = Grid::from_position(self.draw_position);
        }
        self.is_moving = self.grid_position.x != self.grid_destination.x;
        if self.is_moving {
            self.animate_frames(now_ms);
        }
    }

    /// Sets the destination to the tile containing the given pixel position,
    /// effective from the next tick; nothing else changes, so a destination
    /// re-issued mid-motion replaces the old one at once.
    pub fn move_to_posiiton(&mut self, x: u32, y: u32)
        ensures
            *final(self) == (Player {
                grid_destination: grid_of(Position { x, y }),
                ..*old(self)
            }),
    {
        self.grid_destination = Grid::from_position(Position { x, y });
    }
}

/// After `k` ticks of a run, the render position has advanced `k` pixels
/// along x, the tile on record is the tile of that position, the destination
/// is untouched, and from the first tick on the moving flag holds exactly
/// while the current column differs from the destination column.
pub open spec fn trajectory_ok(player: Player, times: Seq<u64>, k: int) -> bool {
    let s = run_updates(player, times.take(k));
    &&& s.draw_position.x == player.draw_position.x + k
    &&& s.draw_position.y == player.draw_position.y
    &&& s.grid_position == grid_of(s.draw_position)
    &&& s.grid_destination == player.grid_destination
    &&& (1 <= k ==> (s.is_moving <==> s.grid_position.x != player.grid_destination.x))
}

/// Everything the host renderer needs to draw the entity, as exact integer
/// data: the cell of the sprite sheet to show (current frame over the total
/// gives the column offset as a fraction of the sheet's width, the facing
/// row over four its row offset as a fraction of the height), the pixel the
/// scaled sprite is drawn at, and the per-axis scale.
#[derive(Clone, Copy, Debug, PartialEq, Eq, Structural)]
pub struct DrawParams {
    pub frame_numerator: u8,
    pub frame_total: u8,
    pub direction_row: u8,
    pub dest_x: u64,
    pub dest_y: u64,
    pub scale_x: u32,
    pub scale_y: u32,
}

impl Player {
    /// The read-only projection of the entity to drawing data: the current
    /// animation frame (0 over 1 for a sprite without a clock), the facing
    /// row, the render position scaled by the resolution's scale factor, and
    /// that scale factor itself.
    pub fn draw_params(&self) -> (params: DrawParams)
        ensures
            params.frame_numerator == match self.sprite.frames {
                Some(frames) => frames.animation_frame,
                None => 0u8,
            },
            params.frame_total == match self.sprite.frames {
                Some(frames) => frames.animation_total_frames,
                None => 1u8,
            },
            params.direction_row == direction_row(self.direction),
            params.scale_x == round_ratio(self.resolution.0 as int, BASE_RESOLUTION_W as int),
            params.scale_y == round_ratio(self.resolution.1 as int, BASE_RESOLUTION_H as int),
            params.dest_x == self.draw_position.x * params.scale_x,
            params.dest_y == self.draw_position.y * params.scale_y,
    {
        let (frame_numerator, frame_total) = match self.sprite.frames {
            Some(frames) => (frames.animation_frame, frames.animation_total_frames),
            None => (0, 1),
        };
        let (scale_x, scale_y) = get_scaled_resolution(self.resolution);
        proof {
            assert(self.draw_position.x as int * scale_x as int <= u64::MAX) by (nonlinear_arith)
                requires
                    self.draw_position.x <= u32::MAX,
                    scale_x <= u32::MAX,
            ;
            assert(self.draw_position.y as int * scale_y as int <= u64::MAX) by (nonlinear_arith)
                requires
                    self.draw_position.y <= u32::MAX,
                    scale_y <= u32::MAX,
            ;
        }
        DrawParams {
            frame_numerator,
            frame_total,
            direction_row: self.get_animation_direction(),
            dest_x: self.draw_position.x as u64 * scale_x as u64,
            dest_y: self.draw_position.y as u64 * scale_y as u64,
            scale_x,
            scale_y,
        }
    }
}

/// What one tick does to the entity's position and tile, spelled out along
/// a whole run: `trajectory_ok` holds of every prefix. The run is exactly
/// long enough to reach the destination column's left edge.
pub proof fn lemma_trajectory(player: Player, times: Seq<u64>)
    requires
        player.grid_position == grid_of(player.draw_position),
        player.draw_position.x <= player.grid_destination.x as int * GRID_SIZE as int,
        times.len() == player.grid_destination.x as int * GRID_SIZE as int - player.draw_position.x,
    ensures
        forall|k: int| 0 <= k <= times.len() ==> #[trigger] trajectory_ok(player, times, k),
    decreases times.len(),
{
    let dest = player.grid_destination.x as int;
    if times.len() == 0 {
        assert(times.take(0) =~= Seq::<u64>::empty());
        assert(run_updates(player, times.take(0)) == player);
    } else {
        assert(player.draw_position.x < dest * GRID_SIZE);
        assert(player.draw_position.x as int / (GRID_SIZE as int) < dest) by {
            let x = player.draw_position.x as int;
            let g = GRID_SIZE as int;
            assert(x <= dest * g - 1);
            assert((dest * g - 1) / g == dest - 1) by (nonlinear_arith)
                requires
                    g == 50,
                    0 <= dest,
            ;
            assert(x / g <= (dest * g - 1) / g) by (nonlinear_arith)
                requires
                    0 <= x <= dest * g - 1,
                    g == 50,
            ;
        }
        assert(player.grid_position.x < dest);
        let stepped = updated(player, times[0]);
        let rest = times.subrange(1, times.len() as int);
        assert(stepped.draw_position.x == player.draw_position.x + 1);
        assert(stepped.draw_position.y == player.draw_position.y);
        assert(stepped.grid_position == grid_of(stepped.draw_position));
        assert(stepped.grid_destination == player.grid_destination);
        lemma_trajectory(stepped, rest);
        assert forall|k: int| 0 <= k <= times.len() implies #[trigger] trajectory_ok(
            player,
            times,
            k,
        ) by {
            if k == 0 {
                assert(times.take(0) =~= Seq::<u64>::empty());
                assert(run_updates(player, times.take(0)) == player);
            } else {
                assert(times.take(k).len() == k);
                assert(times.take(k)[0] == times[0]);
                assert(times.take(k).subrange(1, k) =~= rest.take(k - 1));
                assert(run_updates(player, times.take(k))
                    == run_updates(stepped, rest.take(k - 1)));
                assert(trajectory_ok(stepped, rest, k - 1));
                if k == 1 {
                    assert(rest.take(0) =~= Seq::<u64>::empty());
                    assert(run_updates(stepped, rest.take(0)) == stepped);
                    assert(stepped.is_moving
                        <==> stepped.grid_position.x != player.grid_destination.x);
                }
            }
        }
    }
}

/// An entity standing tile-aligned at column `c0`, headed to a destination
/// column `c > c0`, transitions to Moving on the first tick and, after
/// exactly `(c - c0) * GRID_SIZE` ticks, stands idle exactly at column `c`'s
/// left edge; all the way there the moving flag is false only once the
/// columns match.
pub proof fn lemma_reaches_destination(player: Player, times: Seq<u64>)
    requires
        player.grid_position == grid_of(player.draw_position),
        player.draw_position.x == player.grid_position.x as int * GRID_SIZE as int,
        player.grid_position.x < player.grid_destination.x,
        times.len() == (player.grid_destination.x - player.grid_position.x) as int
            * GRID_SIZE as int,
    ensures
        run_updates(player, times).draw_position.x == player.grid_destination.x as int
            * GRID_SIZE as int,
        run_updates(player, times).grid_position.x == player.grid_destination.x,
        !run_updates(player, times).is_moving,
        forall|k: int|
            1 <= k < times.len() ==> run_updates(player, times.take(k)).is_moving,
{
    let c0 = player.grid_position.x as int;
    let c = player.grid_destination.x as int;
    let g = GRID_SIZE as int;
    assert(c0 * g + (c - c0) * g == c * g) by (nonlinear_arith);
    lemma_trajectory(player, times);
    assert(times.take(times.len() as int) =~= times);
    assert(trajectory_ok(player, times, times.len() as int));
    let s = run_updates(player, times);
    assert(s.draw_position.x == c * g);
    assert(s.grid_position.x == grid_axis(c * g));
    assert(c * g / g == c) by (nonlinear_arith)
        requires
            g == 50,
    ;
    assert forall|k: int| 1 <= k < times.len() implies run_updates(
        player,
        times.take(k),
    ).is_moving by {
        assert(trajectory_ok(player, times, k));
        let sk = run_updates(player, times.take(k));
        assert(sk.draw_position.x == c0 * g + k);
        assert(sk.grid_position.x == grid_axis(c0 * g + k));
        assert(c0 * g + k < c * g);
        assert((c0 * g + k) / g < c) by (nonlinear_arith)
            requires
                g == 50,
                0 <= c0 * g + k <= c * g - 1,
        ;
    }
}

/// A destination re-issued mid-motion takes effect at once and wipes out the
/// old one: the entity need never reach the prior destination, and two
/// entities that differ only in where they were headed behave identically
/// from the re-issue on.
pub proof fn lemma_redirect_overrides(
    player: Player,
    other: Player,
    x: u32,
    y: u32,
    times: Seq<u64>,
)
    requires
        other == (Player { grid_destination: other.grid_destination, ..player }),
    ensures
        (Player { grid_destination: grid_of(Position { x, y }), ..player })
            == (Player { grid_destination: grid_of(Position { x, y }), ..other }),
        run_updates(Player { grid_destination: grid_of(Position { x, y }), ..player }, times)
            == run_updates(Player { grid_destination: grid_of(Position { x, y }), ..other }, times),
{
}

} // verus!
