//! Scenario tests for the coordinate model, the animation clock, and the
//! entity update loop, driven from outside the library as the host loop
//! would drive them.

use riablo::animation::AnimationFrames;
use riablo::coords::{get_scaled_resolution, Grid, Position};
use riablo::direction::{Direction, Key};
use riablo::game::GameState;
use riablo::player::Player;

#[test]
fn scale_factor_of_full_hd_is_two_by_two() {
    assert_eq!(get_scaled_resolution((1920, 1080)), (2, 2));
}

#[test]
fn scale_factor_of_base_resolution_is_one_by_one() {
    assert_eq!(get_scaled_resolution((800, 600)), (1, 1));
}

#[test]
fn scale_factor_rounds_each_axis_to_nearest() {
    // 1200 / 800 = 1.5 rounds up; 700 / 600 rounds down to 1.
    assert_eq!(get_scaled_resolution((1200, 700)), (2, 1));
    // Far below the base resolution the scale rounds to zero.
    assert_eq!(get_scaled_resolution((100, 100)), (0, 0));
}

#[test]
fn grid_from_position_truncates_into_tiles() {
    assert_eq!(Grid::from_position(Position { x: 0, y: 0 }), Grid { x: 0, y: 0 });
    assert_eq!(Grid::from_position(Position { x: 49, y: 49 }), Grid { x: 0, y: 0 });
    assert_eq!(Grid::from_position(Position { x: 50, y: 99 }), Grid { x: 1, y: 1 });
    assert_eq!(Grid::from_position(Position { x: 123, y: 77 }), Grid { x: 2, y: 1 });
}

#[test]
fn grid_from_position_saturates_past_last_tile() {
    assert_eq!(Grid::from_position(Position { x: 13000, y: 0 }), Grid { x: 255, y: 0 });
    assert_eq!(
        Grid::from_position(Position { x: 12750, y: 4_000_000_000 }),
        Grid { x: 255, y: 255 }
    );
}

#[test]
fn position_from_grid_is_tile_top_left() {
    assert_eq!(Position::from(Grid { x: 2, y: 3 }), Position { x: 100, y: 150 });
    assert_eq!(Position::from(Grid { x: 0, y: 0 }), Position { x: 0, y: 0 });
}

#[test]
fn grid_round_trip_loses_less_than_one_tile() {
    let p = Position { x: 123, y: 77 };
    let q = Position::from(Grid::from_position(p));
    assert_eq!(q, Position { x: 100, y: 50 });
    assert!(q.x <= p.x && p.x - q.x < 50);
    assert!(q.y <= p.y && p.y - q.y < 50);
}

#[test]
fn direction_flags_follow_movement_keys() {
    let mut d = Direction::default();
    d.update_from_keycode(Key::Up, true);
    d.update_from_keycode(Key::Left, true);
    assert!(d.up && d.left && !d.down && !d.right);
    d.update_from_keycode(Key::Up, false);
    assert!(!d.up && d.left);
    // A key outside the four movement keys changes nothing.
    d.update_from_keycode(Key::G, true);
    d.update_from_keycode(Key::Other, true);
    assert_eq!(d, Direction { up: false, down: false, left: true, right: false });
}

#[test]
fn animation_direction_priority_up_beats_left() {
    let mut player = Player::new((800, 600), 0);
    player.direction.up = true;
    player.direction.left = true;
    // The row offset is the returned quarter: up wins, so 0.25 and not 0.5.
    assert_eq!(player.get_animation_direction(), 1);
    assert_eq!(player.get_animation_direction() as f32 * 0.25, 0.25);
}

#[test]
fn animation_direction_left_beats_right_and_down_is_default() {
    let mut player = Player::new((800, 600), 0);
    player.direction.left = true;
    player.direction.right = true;
    assert_eq!(player.get_animation_direction(), 2);
    player.direction.left = false;
    assert_eq!(player.get_animation_direction(), 3);
    player.direction.right = false;
    assert_eq!(player.get_animation_direction(), 0);
}

#[test]
fn animation_does_not_advance_before_interval() {
    let mut frames = AnimationFrames::new(4, 1000);
    frames.advance(1000);
    frames.advance(1100);
    frames.advance(1149);
    assert_eq!(frames.animation_frame, 0);
    assert_eq!(frames.last_animation, Some(1000));
}

#[test]
fn animation_advances_at_interval_and_resets_timestamp() {
    let mut frames = AnimationFrames::new(4, 1000);
    frames.advance(1150);
    assert_eq!(frames.animation_frame, 1);
    assert_eq!(frames.last_animation, Some(1150));
    // The next advance is measured from the new timestamp.
    frames.advance(1250);
    assert_eq!(frames.animation_frame, 1);
    frames.advance(1300);
    assert_eq!(frames.animation_frame, 2);
}

#[test]
fn animation_cycles_back_to_zero_after_four_advances() {
    let mut frames = AnimationFrames::new(4, 0);
    let mut seen = Vec::new();
    for t in [150u64, 300, 450, 600] {
        frames.advance(t);
        seen.push(frames.animation_frame);
    }
    assert_eq!(seen, vec![1, 2, 3, 0]);
}

#[test]
fn new_player_is_idle_at_origin() {
    let player = Player::new((1920, 1080), 7);
    assert_eq!(player.draw_position, Position { x: 0, y: 0 });
    assert_eq!(player.grid_position, Grid { x: 0, y: 0 });
    assert_eq!(player.grid_destination, Grid { x: 0, y: 0 });
    assert!(!player.is_moving);
    let frames = player.sprite.frames.unwrap();
    assert_eq!(frames.animation_frame, 0);
    assert_eq!(frames.animation_total_frames, 4);
    assert_eq!(frames.last_animation, Some(7));
}

#[test]
fn player_reaches_destination_column_in_fifty_ticks_per_tile() {
    let mut player = Player::new((800, 600), 0);
    // Destination: the tile containing pixel (100, 100), i.e. column 2.
    player.move_to_posiiton(100, 100);
    assert_eq!(player.grid_destination, Grid { x: 2, y: 2 });
    let mut now = 0u64;
    for tick in 1..=100u32 {
        now += 16;
        player.update(now);
        assert_eq!(player.draw_position.x, tick);
        if tick < 100 {
            assert!(player.is_moving, "still short of column 2 at tick {}", tick);
        }
    }
    // After exactly (2 - 0) * 50 ticks: idle, standing exactly on column 2.
    assert_eq!(player.draw_position.x, 100);
    assert_eq!(player.grid_position.x, 2);
    assert!(!player.is_moving);
    // Further ticks change nothing but keep it idle.
    player.update(now + 16);
    assert_eq!(player.draw_position.x, 100);
    assert!(!player.is_moving);
}

#[test]
fn moving_flag_false_only_once_columns_match() {
    let mut player = Player::new((800, 600), 0);
    player.move_to_posiiton(50, 0);
    for _ in 0..50 {
        player.update(0);
        assert_eq!(player.is_moving, player.grid_position.x != player.grid_destination.x);
    }
    assert!(!player.is_moving);
}

#[test]
fn redirect_mid_motion_takes_effect_immediately() {
    let mut player = Player::new((800, 600), 0);
    player.move_to_posiiton(100, 0);
    for _ in 0..30 {
        player.update(0);
    }
    assert_eq!(player.draw_position.x, 30);
    assert!(player.is_moving);
    // Re-issue a farther destination mid-motion: the target changes at once,
    // without the entity first reaching column 2.
    player.move_to_posiiton(200, 0);
    assert_eq!(player.grid_destination, Grid { x: 4, y: 0 });
    for _ in 0..170 {
        player.update(0);
        assert_eq!(player.grid_destination, Grid { x: 4, y: 0 });
    }
    assert_eq!(player.draw_position.x, 200);
    assert_eq!(player.grid_position.x, 4);
    assert!(!player.is_moving);
}

#[test]
fn animation_advances_only_while_moving() {
    let mut player = Player::new((800, 600), 0);
    // Idle: ticks far past the interval leave the frame frozen.
    player.update(1000);
    player.update(2000);
    assert_eq!(player.sprite.frames.unwrap().animation_frame, 0);
    // Moving: a tick past the interval advances the frame.
    player.move_to_posiiton(100, 0);
    player.update(3000);
    assert_eq!(player.sprite.frames.unwrap().animation_frame, 1);
    // While stationary again the frame freezes at its last value.
    let mut player2 = Player::new((800, 600), 0);
    player2.move_to_posiiton(1, 0);
    player2.update(200);
    assert!(!player2.is_moving);
    assert_eq!(player2.sprite.frames.unwrap().animation_frame, 0);
}

#[test]
fn game_update_drives_the_player() {
    let mut game = GameState::new((1920, 1080), 0);
    game.player.move_to_posiiton(50, 0);
    game.update(16);
    assert_eq!(game.player.draw_position.x, 1);
    assert!(game.player.is_moving);
    assert_eq!(game.resolution, (1920, 1080));
}

#[test]
fn mouse_click_sets_destination_in_base_coordinates() {
    let mut game = GameState::new((1920, 1080), 0);
    // A click at the window's center maps to (400, 300) in the base
    // resolution, which is tile (8, 6).
    game.mouse_button_down_event(960, 540);
    assert_eq!(game.player.grid_destination, Grid { x: 8, y: 6 });
    // At the base resolution itself the mapping is the identity.
    let mut game2 = GameState::new((800, 600), 0);
    game2.mouse_button_down_event(125, 75);
    assert_eq!(game2.player.grid_destination, Grid { x: 2, y: 1 });
}

#[test]
fn key_up_g_sends_player_to_fixed_tile() {
    let mut game = GameState::new((800, 600), 0);
    game.key_up_event(Key::G);
    assert_eq!(game.player.grid_destination, Grid { x: 2, y: 2 });
    let before = game.player.grid_destination;
    game.key_up_event(Key::Left);
    game.key_down_event(Key::Up);
    assert_eq!(game.player.grid_destination, before);
    assert!(!game.player.direction.up);
}

#[test]
fn background_covers_scaled_base_resolution() {
    let game = GameState::new((1920, 1080), 0);
    assert_eq!(game.background_size(), (1600, 1200));
    let game2 = GameState::new((800, 600), 0);
    assert_eq!(game2.background_size(), (800, 600));
}

#[test]
fn draw_params_project_the_entity_for_the_renderer() {
    let mut player = Player::new((1920, 1080), 0);
    player.move_to_posiiton(13000, 0);
    for _ in 0..75 {
        player.update(u64::MAX / 2);
    }
    let params = player.draw_params();
    // 75 pixels along x, scaled 2x on each axis.
    assert_eq!((params.dest_x, params.dest_y), (150, 0));
    assert_eq!((params.scale_x, params.scale_y), (2, 2));
    assert_eq!(params.frame_total, 4);
    // The frame column offset is the exact fraction frame / total in [0, 1).
    let offset = params.frame_numerator as f32 / params.frame_total as f32;
    assert!((0.0..1.0).contains(&offset));
    assert_eq!(params.direction_row, 0);
}
