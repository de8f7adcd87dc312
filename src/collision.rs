//! Collision detection and response for one frame of ball movement.

use vstd::prelude::*;
use crate::state::{
    Breakout, BALL_DOWN_LEFT, BALL_DOWN_RIGHT, BALL_SIZE, BALL_START_X, BALL_START_Y,
    BALL_UP_LEFT, BALL_UP_RIGHT, BOARD_HEIGHT, BOARD_WIDTH, BRICK_HEIGHT, BRICK_WIDTH,
    N_BRICKS, N_BRICK_COLS, N_BRICK_ROWS, PADDLE_WIDTH, PADDLE_Y,
};

verus! {

/// Which response the collision engine chose for a frame.
#[derive(Clone, Copy, Debug, PartialEq, Eq, Structural)]
pub enum Collision {
    /// The ball hit nothing.
    Nothing,
    /// The ball fell past the bottom of the board and was put back.
    BottomWall,
    /// The ball bounced off the side walls, the top wall, or both.
    Wall { horizontal: bool, vertical: bool },
    /// The ball bounced off the top of the paddle.
    Paddle,
    /// The ball destroyed the brick `index` and bounced off it.
    Brick { index: u8, vertical: bool },
}

/// Horizontal step of a direction code.
pub open spec fn dx_of(vel: u8) -> int {
    if vel == BALL_UP_LEFT || vel == BALL_DOWN_LEFT {
        -1
    } else {
        1
    }
}

/// Vertical step of a direction code (rows grow downwards).
pub open spec fn dy_of(vel: u8) -> int {
    if vel == BALL_UP_LEFT || vel == BALL_UP_RIGHT {
        -1
    } else {
        1
    }
}

/// The direction code with its horizontal component reversed.
pub open spec fn flipped_horizontal(vel: u8) -> u8 {
    if vel == BALL_UP_LEFT {
        BALL_UP_RIGHT
    } else if vel == BALL_UP_RIGHT {
        BALL_UP_LEFT
    } else if vel == BALL_DOWN_LEFT {
        BALL_DOWN_RIGHT
    } else if vel == BALL_DOWN_RIGHT {
        BALL_DOWN_LEFT
    } else {
        vel
    }
}

/// The direction code with its vertical component reversed.
pub open spec fn flipped_vertical(vel: u8) -> u8 {
    if vel == BALL_UP_LEFT {
        BALL_DOWN_LEFT
    } else if vel == BALL_UP_RIGHT {
        BALL_DOWN_RIGHT
    } else if vel == BALL_DOWN_LEFT {
        BALL_UP_LEFT
    } else if vel == BALL_DOWN_RIGHT {
        BALL_UP_RIGHT
    } else {
        vel
    }
}

/// The step `(dx, dy)` of the ball for a direction code.
pub fn velocity_delta(vel: u8) -> (r: (i8, i8))
    requires
        vel < 4,
    ensures
        r.0 == dx_of(vel),
        r.1 == dy_of(vel),
{
    if vel == BALL_UP_LEFT {
        (-1, -1)
    } else if vel == BALL_UP_RIGHT {
        (1, -1)
    } else if vel == BALL_DOWN_LEFT {
        (-1, 1)
    } else {
        (1, 1)
    }
}

/// Reverses the horizontal component of a direction code.
pub fn flip_ball_horizontal(velocity: u8) -> (r: u8)
    ensures
        r == flipped_horizontal(velocity),
{
    if velocity == BALL_UP_LEFT {
        BALL_UP_RIGHT
    } else if velocity == BALL_UP_RIGHT {
        BALL_UP_LEFT
    } else if velocity == BALL_DOWN_LEFT {
        BALL_DOWN_RIGHT
    } else if velocity == BALL_DOWN_RIGHT {
        BALL_DOWN_LEFT
    } else {
        velocity
    }
}

/// Reverses the vertical component of a direction code.
pub fn flip_ball_vertical(velocity: u8) -> (r: u8)
    ensures
        r == flipped_vertical(velocity),
{
    if velocity == BALL_UP_LEFT {
        BALL_DOWN_LEFT
    } else if velocity == BALL_UP_RIGHT {
        BALL_DOWN_RIGHT
    } else if velocity == BALL_DOWN_LEFT {
        BALL_UP_LEFT
    } else if velocity == BALL_DOWN_RIGHT {
        BALL_UP_RIGHT
    } else {
        velocity
    }
}

/// Moving from row `old_y` by `dy` brings the ball's bottom edge to or past
/// the bottom of the board while it moves down.
pub open spec fn hits_bottom(old_y: u8, dy: int) -> bool {
    dy > 0 && old_y + dy >= BOARD_HEIGHT - BALL_SIZE
}

/// Moving from column `old_x` by `dx` brings the ball's left edge to or past
/// the left wall while it moves left, or its right edge to or past the right
/// wall while it moves right.
pub open spec fn hits_side_wall(old_x: u8, dx: int) -> bool {
    (dx < 0 && old_x + dx <= 0) || (dx > 0 && old_x + dx >= BOARD_WIDTH - BALL_SIZE)
}

/// Moving from row `old_y` by `dy` brings the ball's top edge to or past the
/// top wall while it moves up.
pub open spec fn hits_top_wall(old_y: u8, dy: int) -> bool {
    dy < 0 && old_y + dy <= 0
}

/// Checks the moves of the ball from `(old_x, old_y)` by `(dx, dy)` against
/// the side walls and the top wall; the result is the pair (side, top).
pub fn check_wall_collision(old_x: u8, old_y: u8, dx: i8, dy: i8) -> (r: (bool, bool))
    ensures
        r.0 == hits_side_wall(old_x, dx as int),
        r.1 == hits_top_wall(old_y, dy as int),
{
    let x = old_x as i16 + dx as i16;
    let y = old_y as i16 + dy as i16;
    let left_wall = dx < 0 && x <= 0;
    let right_wall = dx > 0 && x >= (BOARD_WIDTH - BALL_SIZE) as i16;
    let top_wall = dy < 0 && y <= 0;
    (left_wall || right_wall, top_wall)
}

/// Checks the move from row `old_y` by `dy` against the bottom of the board.
pub fn check_bottom_collision(old_y: u8, dy: i8) -> (r: bool)
    ensures
        r == hits_bottom(old_y, dy as int),
{
    dy > 0 && old_y as i16 + dy as i16 >= (BOARD_HEIGHT - BALL_SIZE) as i16
}

/// The ball at `(x, y)`, having come down from row `old_y`, crossed the
/// paddle's top edge in this frame and overlaps the paddle horizontally.
pub open spec fn paddle_hit(x: u8, y: u8, old_y: u8, paddle_pos: u8, dy: int) -> bool {
    &&& dy > 0
    &&& y + BALL_SIZE >= PADDLE_Y
    &&& old_y + BALL_SIZE < PADDLE_Y
    &&& x + BALL_SIZE > paddle_pos
    &&& x < paddle_pos + PADDLE_WIDTH
}

/// Checks the ball at `(ball_x, ball_y)`, moved from row `old_ball_y`, against
/// the paddle.
pub fn check_paddle_collision(ball_x: u8, ball_y: u8, old_ball_y: u8, paddle_pos: u8, dy: i8) -> (r:
    bool)
    ensures
        r == paddle_hit(ball_x, ball_y, old_ball_y, paddle_pos, dy as int),
{
    if dy <= 0 {
        return false;
    }
    let ball_bottom = ball_y as u16 + BALL_SIZE as u16;
    let old_ball_bottom = old_ball_y as u16 + BALL_SIZE as u16;
    let paddle_top = PADDLE_Y as u16;
    let crossed_paddle = ball_bottom >= paddle_top && old_ball_bottom < paddle_top;
    if !crossed_paddle {
        return false;
    }
    let ball_left = ball_x as u16;
    let ball_right = ball_x as u16 + BALL_SIZE as u16;
    let paddle_left = paddle_pos as u16;
    let paddle_right = paddle_pos as u16 + PADDLE_WIDTH as u16;
    ball_right > paddle_left && ball_left < paddle_right
}

/// The brick `index` is still standing in `bricks`.
pub open spec fn brick_present(bricks: u64, index: u64) -> bool {
    (bricks >> index) & 1 == 1
}

/// Lowest row below the brick field.
pub open spec fn brick_field_bottom() -> int {
    N_BRICK_ROWS * BRICK_HEIGHT
}

/// The standing brick that covers the board cell `(x, y)`, if any.
pub open spec fn brick_at(bricks: u64, x: int, y: int) -> Option<u8> {
    if 0 <= x < BOARD_WIDTH && 0 <= y < brick_field_bottom() {
        let index = (y / BRICK_HEIGHT as int) * N_BRICK_COLS + x / BRICK_WIDTH as int;
        if index < N_BRICKS && brick_present(bricks, index as u64) {
            Some(index as u8)
        } else {
            None
        }
    } else {
        None
    }
}

/// The brick that the ball at `(x, y)` runs into: the first standing brick
/// under its top-left, top-right, bottom-left and bottom-right cells, looked
/// at in that order, when its top edge is inside the brick field.
pub open spec fn brick_hit(x: u8, y: u8, bricks: u64) -> Option<u8> {
    let far = BALL_SIZE - 1;
    if y >= brick_field_bottom() {
        None
    } else if brick_at(bricks, x as int, y as int) is Some {
        brick_at(bricks, x as int, y as int)
    } else if brick_at(bricks, x + far, y as int) is Some {
        brick_at(bricks, x + far, y as int)
    } else if brick_at(bricks, x as int, y + far) is Some {
        brick_at(bricks, x as int, y + far)
    } else {
        brick_at(bricks, x + far, y + far)
    }
}

fn brick_at_cell(bricks: u64, x: u16, y: u16) -> (r: Option<u8>)
    requires
        x <= 256,
        y <= 256,
    ensures
        r == brick_at(bricks, x as int, y as int),
{
    if x < BOARD_WIDTH as u16 && y < (N_BRICK_ROWS * BRICK_HEIGHT) as u16 {
        let brick_col = x / BRICK_WIDTH as u16;
        let brick_row = y / BRICK_HEIGHT as u16;
        let brick_index = brick_row * N_BRICK_COLS as u16 + brick_col;
        if brick_index < N_BRICKS as u16 && (bricks >> brick_index) & 1 == 1 {
            return Some(brick_index as u8);
        }
    }
    None
}

/// Finds the brick that the ball at `(ball_x, ball_y)` runs into.
pub fn find_brick_collision(ball_x: u8, ball_y: u8, bricks: u64) -> (r: Option<u8>)
    ensures
        r == brick_hit(ball_x, ball_y, bricks),
        r matches Some(i) ==> i < N_BRICKS && brick_present(bricks, i as u64),
{
    if ball_y >= N_BRICK_ROWS * BRICK_HEIGHT {
        return None;
    }
    let x = ball_x as u16;
    let y = ball_y as u16;
    let far = BALL_SIZE as u16 - 1;
    let top_left = brick_at_cell(bricks, x, y);
    if top_left.is_some() {
        return top_left;
    }
    let top_right = brick_at_cell(bricks, x + far, y);
    if top_right.is_some() {
        return top_right;
    }
    let bottom_left = brick_at_cell(bricks, x, y + far);
    if bottom_left.is_some() {
        return bottom_left;
    }
    brick_at_cell(bricks, x + far, y + far)
}

/// The ball's columns before the move, from `old_x`, overlapped the columns
/// of brick `index`: such a hit is on the brick's top or bottom face.
pub open spec fn hit_from_above_or_below(old_x: u8, index: u8) -> bool {
    let brick_x = (index % N_BRICK_COLS) * BRICK_WIDTH;
    old_x + BALL_SIZE > brick_x && old_x < brick_x + BRICK_WIDTH
}

/// Tells whether the ball that ran into brick `brick_index` from column
/// `old_ball_x` bounces vertically (true) or horizontally (false).
pub fn determine_brick_collision_direction(old_ball_x: u8, brick_index: u8) -> (r: bool)
    requires
        brick_index < N_BRICKS,
    ensures
        r == hit_from_above_or_below(old_ball_x, brick_index),
{
    let brick_col = brick_index % N_BRICK_COLS;
    assert(brick_col < 8);
    let brick_x = brick_col as u16 * BRICK_WIDTH as u16;
    let old_ball_left = old_ball_x as u16;
    let old_ball_right = old_ball_x as u16 + BALL_SIZE as u16;
    old_ball_right > brick_x && old_ball_left < brick_x + BRICK_WIDTH as u16
}

/// `bricks` with brick `index` removed.
pub open spec fn cleared(bricks: u64, index: u8) -> u64 {
    bricks & !(1u64 << index)
}

/// The state after the response to collision `c` of the moved state `s`,
/// whose ball stood at `(old_x, old_y)` before the move.
pub open spec fn respond(s: Breakout, c: Collision, old_x: u8, old_y: u8) -> Breakout {
    match c {
        Collision::Nothing => s,
        Collision::BottomWall => Breakout {
            ball_pos_x: BALL_START_X,
            ball_pos_y: BALL_START_Y,
            ball_vel: BALL_UP_RIGHT,
            ..s
        },
        Collision::Wall { horizontal, vertical } => {
            let v1 = if horizontal { flipped_horizontal(s.ball_vel) } else { s.ball_vel };
            Breakout {
                ball_pos_x: if horizontal { old_x } else { s.ball_pos_x },
                ball_pos_y: if vertical { old_y } else { s.ball_pos_y },
                ball_vel: if vertical { flipped_vertical(v1) } else { v1 },
                ..s
            }
        },
        Collision::Paddle => Breakout {
            ball_pos_y: old_y,
            ball_vel: flipped_vertical(s.ball_vel),
            ..s
        },
        Collision::Brick { index, vertical } => if vertical {
            Breakout {
                bricks: cleared(s.bricks, index),
                ball_pos_y: old_y,
                ball_vel: flipped_vertical(s.ball_vel),
                ..s
            }
        } else {
            Breakout {
                bricks: cleared(s.bricks, index),
                ball_pos_x: old_x,
                ball_vel: flipped_horizontal(s.ball_vel),
                ..s
            }
        },
    }
}

/// The collision that the engine picks for the moved state `s`, whose ball
/// moved by `(dx, dy)` from `(old_x, old_y)`: the first of bottom wall, side
/// or top wall, paddle and brick whose condition holds.
pub open spec fn collision_of(s: Breakout, dx: int, dy: int, old_x: u8, old_y: u8) -> Collision {
    if hits_bottom(old_y, dy) {
        Collision::BottomWall
    } else if hits_side_wall(old_x, dx) || hits_top_wall(old_y, dy) {
        Collision::Wall {
            horizontal: hits_side_wall(old_x, dx),
            vertical: hits_top_wall(old_y, dy),
        }
    } else if paddle_hit(s.ball_pos_x, s.ball_pos_y, old_y, s.paddle_pos, dy) {
        Collision::Paddle
    } else {
        match brick_hit(s.ball_pos_x, s.ball_pos_y, s.bricks) {
            Some(index) => Collision::Brick {
                index,
                vertical: hit_from_above_or_below(old_x, index),
            },
            None => Collision::Nothing,
        }
    }
}

/// Puts a lost ball back above the paddle, moving up and to the right.
pub fn reset_ball_position(state: &mut Breakout)
    ensures
        *final(state) == respond(*old(state), Collision::BottomWall, 0, 0),
{
    state.ball_pos_x = BALL_START_X;
    state.ball_pos_y = BALL_START_Y;
    state.ball_vel = BALL_UP_RIGHT;
}

/// Bounces the ball off the walls that it hit, putting it back on each axis
/// that bounced.
pub fn handle_wall_collision(
    state: &mut Breakout,
    old_ball_x: u8,
    old_ball_y: u8,
    horizontal_hit: bool,
    vertical_hit: bool,
)
    ensures
        *final(state) == respond(
            *old(state),
            Collision::Wall { horizontal: horizontal_hit, vertical: vertical_hit },
            old_ball_x,
            old_ball_y,
        ),
{
    if horizontal_hit {
        state.ball_vel = flip_ball_horizontal(state.ball_vel);
        state.ball_pos_x = old_ball_x;
    }
    if vertical_hit {
        state.ball_vel = flip_ball_vertical(state.ball_vel);
        state.ball_pos_y = old_ball_y;
    }
}

/// Bounces the ball off the paddle.
pub fn handle_paddle_collision(state: &mut Breakout, old_ball_y: u8)
    ensures
        *final(state) == respond(*old(state), Collision::Paddle, 0, old_ball_y),
{
    state.ball_vel = flip_ball_vertical(state.ball_vel);
    state.ball_pos_y = old_ball_y;
}

/// Removes brick `brick_index` and bounces the ball off it.
pub fn handle_brick_collision(
    state: &mut Breakout,
    old_ball_x: u8,
    old_ball_y: u8,
    brick_index: u8,
    is_vertical: bool,
)
    requires
        brick_index < N_BRICKS,
    ensures
        *final(state) == respond(
            *old(state),
            Collision::Brick { index: brick_index, vertical: is_vertical },
            old_ball_x,
            old_ball_y,
        ),
{
    state.bricks = state.bricks & !(1u64 << brick_index);
    if is_vertical {
        state.ball_vel = flip_ball_vertical(state.ball_vel);
        state.ball_pos_y = old_ball_y;
    } else {
        state.ball_vel = flip_ball_horizontal(state.ball_vel);
        state.ball_pos_x = old_ball_x;
    }
}

/// Resolves the collisions of the ball that has just moved by `(dx, dy)` from
/// `(old_ball_x, old_ball_y)`: the first category that applies, in the order
/// bottom wall, walls, paddle, brick, responds, and no other.
pub fn handle_collisions(state: &mut Breakout, dx: i8, dy: i8, old_ball_x: u8, old_ball_y: u8) -> (c:
    Collision)
    ensures
        c == collision_of(*old(state), dx as int, dy as int, old_ball_x, old_ball_y),
        *final(state) == respond(*old(state), c, old_ball_x, old_ball_y),
{
    if check_bottom_collision(old_ball_y, dy) {
        reset_ball_position(state);
        return Collision::BottomWall;
    }
    let (horizontal_wall, vertical_wall) = check_wall_collision(old_ball_x, old_ball_y, dx, dy);
    if horizontal_wall || vertical_wall {
        handle_wall_collision(state, old_ball_x, old_ball_y, horizontal_wall, vertical_wall);
        return Collision::Wall { horizontal: horizontal_wall, vertical: vertical_wall };
    }
    if check_paddle_collision(state.ball_pos_x, state.ball_pos_y, old_ball_y, state.paddle_pos, dy) {
        handle_paddle_collision(state, old_ball_y);
        return Collision::Paddle;
    }
    match find_brick_collision(state.ball_pos_x, state.ball_pos_y, state.bricks) {
        Some(brick_index) => {
            let is_vertical = determine_brick_collision_direction(old_ball_x, brick_index);
            handle_brick_collision(state, old_ball_x, old_ball_y, brick_index, is_vertical);
            Collision::Brick { index: brick_index, vertical: is_vertical }
        },
        None => Collision::Nothing,
    }
}

} // verus!
