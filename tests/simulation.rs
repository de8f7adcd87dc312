use bitwise_games::breakout::{advance, initial, initial_word, move_paddle, step, update_state};
use bitwise_games::collision::{
    check_paddle_collision, check_wall_collision, determine_brick_collision_direction,
    find_brick_collision, flip_ball_horizontal, flip_ball_vertical, handle_collisions,
    velocity_delta, Collision,
};
use bitwise_games::game::{new_game, update};
use bitwise_games::input::{Input, Key};
use bitwise_games::state::{from_u64, to_u64, Breakout};

const ALL_BRICKS: u64 = (1u64 << 40) - 1;

fn word(bricks: u64, paddle: u8, x: u8, y: u8, vel: u8) -> u64 {
    to_u64(&Breakout { bricks, paddle_pos: paddle, ball_pos_x: x, ball_pos_y: y, ball_vel: vel })
}

#[test]
fn initial_state_has_every_brick_and_a_centred_ball() {
    let s = from_u64(initial_word());
    assert_eq!(s.bricks, ALL_BRICKS);
    assert_eq!(s.paddle_pos, 26);
    assert_eq!((s.ball_pos_x, s.ball_pos_y), (31, 57));
    assert_eq!(s.ball_vel, 1);
    assert_eq!(initial(), s);
}

#[test]
fn first_step_moves_the_ball_up_right() {
    let s = from_u64(step(initial_word(), false, false));
    assert_eq!((s.ball_pos_x, s.ball_pos_y), (32, 56));
    assert_eq!(s.bricks, ALL_BRICKS);
    assert_eq!(s.paddle_pos, 26);
    assert_eq!(s.ball_vel, 1);
}

#[test]
fn ball_at_left_wall_moving_left_bounces() {
    let s = from_u64(step(word(ALL_BRICKS, 26, 0, 30, 0), false, false));
    assert_eq!(s.ball_vel, 1);
    assert_eq!(s.ball_pos_x, 0);
    assert_eq!(s.ball_pos_y, 29);
    let t = from_u64(step(word(ALL_BRICKS, 26, 0, 30, 2), false, false));
    assert_eq!(t.ball_vel, 3);
    assert_eq!(t.ball_pos_x, 0);
    assert_eq!(t.ball_pos_y, 31);
}

#[test]
fn ball_reaching_left_wall_bounces_back() {
    let s = from_u64(step(word(ALL_BRICKS, 26, 1, 30, 0), false, false));
    assert_eq!(s.ball_vel, 1);
    assert_eq!((s.ball_pos_x, s.ball_pos_y), (1, 29));
}

#[test]
fn ball_at_right_wall_bounces() {
    let s = from_u64(step(word(ALL_BRICKS, 26, 61, 30, 3), false, false));
    assert_eq!(s.ball_vel, 2);
    assert_eq!((s.ball_pos_x, s.ball_pos_y), (61, 31));
}

#[test]
fn ball_at_top_wall_bounces() {
    let s = from_u64(step(word(0, 26, 30, 1, 1), false, false));
    assert_eq!(s.ball_vel, 3);
    assert_eq!((s.ball_pos_x, s.ball_pos_y), (31, 1));
    let t = from_u64(step(word(0, 26, 30, 0, 0), false, false));
    assert_eq!(t.ball_vel, 2);
    assert_eq!((t.ball_pos_x, t.ball_pos_y), (29, 0));
}

#[test]
fn ball_in_a_corner_flips_both_components() {
    let s = from_u64(step(word(0, 26, 0, 0, 0), false, false));
    assert_eq!(s.ball_vel, 3);
    assert_eq!((s.ball_pos_x, s.ball_pos_y), (0, 0));
}

#[test]
fn ball_past_the_bottom_is_reset() {
    let bricks = 0x12_0000_0F0F;
    for vel in [2u8, 3u8] {
        let s = from_u64(step(word(bricks, 40, 10, 61, vel), false, false));
        assert_eq!((s.ball_pos_x, s.ball_pos_y), (31, 57));
        assert_eq!(s.ball_vel, 1);
        assert_eq!(s.bricks, bricks);
        assert_eq!(s.paddle_pos, 40);
    }
    let s = from_u64(step(word(bricks, 0, 63, 63, 3), false, false));
    assert_eq!((s.ball_pos_x, s.ball_pos_y, s.ball_vel), (31, 57, 1));
}

#[test]
fn ball_hitting_a_brick_from_below_destroys_it() {
    let s = from_u64(step(word(ALL_BRICKS, 26, 10, 20, 0), false, false));
    assert_eq!(s.bricks, ALL_BRICKS & !(1u64 << 33));
    assert_eq!(s.ball_vel, 2);
    assert_eq!(s.ball_pos_y, 20);
    assert_eq!(s.ball_pos_x, 9);
}

#[test]
fn ball_hitting_a_brick_from_the_side_bounces_horizontally() {
    let bricks = ALL_BRICKS & !(1u64 << 17);
    let s = from_u64(step(word(bricks, 26, 14, 12, 1), false, false));
    assert_eq!(s.bricks, bricks & !(1u64 << 18));
    assert_eq!(s.ball_vel, 0);
    assert_eq!((s.ball_pos_x, s.ball_pos_y), (14, 11));
}

#[test]
fn ball_passes_through_a_cleared_field() {
    let s = from_u64(step(word(0, 26, 10, 10, 1), false, false));
    assert_eq!((s.ball_pos_x, s.ball_pos_y, s.ball_vel), (11, 9, 1));
    assert_eq!(s.bricks, 0);
}

#[test]
fn ball_bounces_off_the_paddle() {
    let s = from_u64(step(word(ALL_BRICKS, 26, 30, 59, 3), false, false));
    assert_eq!(s.ball_vel, 1);
    assert_eq!((s.ball_pos_x, s.ball_pos_y), (31, 59));
}

#[test]
fn ball_misses_the_paddle_beside_it() {
    let s = from_u64(step(word(ALL_BRICKS, 26, 10, 59, 3), false, false));
    assert_eq!(s.ball_vel, 3);
    assert_eq!((s.ball_pos_x, s.ball_pos_y), (11, 60));
}

#[test]
fn brick_count_drops_by_at_most_one_per_step() {
    let mut w = word(ALL_BRICKS, 26, 10, 20, 0);
    let mut count = from_u64(w).bricks.count_ones();
    for i in 0..300u32 {
        w = step(w, i % 3 == 0, i % 5 == 0);
        let next = from_u64(w).bricks.count_ones();
        assert!(next == count || next + 1 == count);
        count = next;
    }
    assert!(count < 40);
}

#[test]
fn velocity_and_paddle_stay_in_range() {
    let mut w = initial_word();
    for i in 0..500u32 {
        w = step(w, i % 7 < 3, i % 11 < 6);
        let s = from_u64(w);
        assert!(s.ball_vel <= 3);
        assert!(s.paddle_pos <= 52);
        assert!(s.ball_pos_x < 64 && s.ball_pos_y < 64);
    }
}

#[test]
fn paddle_moves_and_is_clamped() {
    assert_eq!(move_paddle(26, true, false), 24);
    assert_eq!(move_paddle(26, false, true), 28);
    assert_eq!(move_paddle(26, true, true), 26);
    assert_eq!(move_paddle(1, true, false), 0);
    assert_eq!(move_paddle(0, true, false), 0);
    assert_eq!(move_paddle(51, false, true), 52);
    assert_eq!(move_paddle(52, false, true), 52);
    assert_eq!(move_paddle(0, false, true), 2);
}

#[test]
fn held_keys_move_the_paddle_in_a_step() {
    let w = initial_word();
    let left = update_state(w, &Input::new(vec![Key::Left]));
    assert_eq!(from_u64(left).paddle_pos, 24);
    let right = update_state(w, &Input::new(vec![Key::Right]));
    assert_eq!(from_u64(right).paddle_pos, 28);
    let none = update_state(w, &Input::new(vec![]));
    assert_eq!(none, step(w, false, false));
}

#[test]
fn input_reports_held_keys() {
    let input = Input::new(vec![Key::Right]);
    assert!(input.is_key_down(Key::Right));
    assert!(!input.is_key_down(Key::Left));
    assert!(!Input::new(vec![]).is_key_down(Key::Left));
}

#[test]
fn direction_codes() {
    assert_eq!(velocity_delta(0), (-1, -1));
    assert_eq!(velocity_delta(1), (1, -1));
    assert_eq!(velocity_delta(2), (-1, 1));
    assert_eq!(velocity_delta(3), (1, 1));
    assert_eq!([0, 1, 2, 3].map(flip_ball_horizontal), [1, 0, 3, 2]);
    assert_eq!([0, 1, 2, 3].map(flip_ball_vertical), [2, 3, 0, 1]);
}

#[test]
fn detectors() {
    assert_eq!(check_wall_collision(0, 30, -1, 1), (true, false));
    assert_eq!(check_wall_collision(61, 1, 1, -1), (true, true));
    assert_eq!(check_wall_collision(30, 30, 1, 1), (false, false));
    assert!(check_paddle_collision(31, 60, 59, 26, 1));
    assert!(!check_paddle_collision(31, 60, 59, 26, -1));
    assert!(!check_paddle_collision(12, 60, 59, 26, 1));
    assert_eq!(find_brick_collision(9, 19, ALL_BRICKS), Some(33));
    assert_eq!(find_brick_collision(9, 20, ALL_BRICKS), None);
    assert_eq!(find_brick_collision(15, 11, ALL_BRICKS & !(1u64 << 17)), Some(18));
    assert_eq!(find_brick_collision(15, 3, 1u64 << 9), Some(9));
    assert_eq!(find_brick_collision(63, 0, 1u64 << 7), Some(7));
    assert!(determine_brick_collision_direction(10, 33));
    assert!(!determine_brick_collision_direction(14, 18));
}

#[test]
fn one_collision_per_step() {
    let mut s = Breakout { bricks: ALL_BRICKS, paddle_pos: 26, ball_pos_x: 0, ball_pos_y: 19, ball_vel: 0 };
    assert_eq!(advance(&mut s, false, false), Collision::Wall { horizontal: true, vertical: false });
    assert_eq!(s.bricks, ALL_BRICKS);
    let mut t = Breakout { bricks: ALL_BRICKS, paddle_pos: 26, ball_pos_x: 10, ball_pos_y: 19, ball_vel: 0 };
    t.ball_pos_x = 9;
    t.ball_pos_y = 18;
    assert_eq!(handle_collisions(&mut t, -1, -1, 10, 19), Collision::Brick { index: 33, vertical: true });
    assert_eq!((t.ball_pos_x, t.ball_pos_y, t.ball_vel), (9, 19, 2));
    let mut u = Breakout { bricks: 0, paddle_pos: 26, ball_pos_x: 30, ball_pos_y: 30, ball_vel: 3 };
    assert_eq!(advance(&mut u, false, false), Collision::Nothing);
    assert_eq!((u.ball_pos_x, u.ball_pos_y), (31, 31));
}

#[test]
fn new_game_and_update_give_state_and_frame() {
    let (w, frame) = new_game();
    assert_eq!(w, initial_word());
    assert_eq!(frame.len(), 640 * 640);
    let (next, next_frame) = update(w, &Input::new(vec![Key::Left]));
    assert_eq!(next, step(w, true, false));
    assert_eq!(next_frame.len(), 640 * 640);
    assert_ne!(frame, next_frame);
}
