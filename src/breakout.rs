//! The simulation step: paddle input, ball movement and collisions, from one
//! state word to the next.

use vstd::prelude::*;
use crate::bitfield::low_mask;
use crate::collision::{
    brick_hit, brick_present, cleared, collision_of, dx_of, dy_of, flipped_horizontal,
    flipped_vertical, handle_collisions, hit_from_above_or_below, hits_bottom, hits_side_wall,
    hits_top_wall, paddle_hit, respond, velocity_delta, Collision,
};
use crate::input::{Input, Key};
use crate::state::{
    decode, encode, from_u64, lemma_decode_encode, lemma_decoded_fields_fit, lemma_layout_masks,
    to_u64, Breakout, BALL_START_X, BALL_START_Y, BALL_UP_RIGHT, BOARD_WIDTH, BRICKS_BITS,
    N_BRICKS, PADDLE_START_X, PADDLE_STEP, PADDLE_WIDTH,
};

verus! {

/// The state at the start of a game: every brick standing, the paddle in the
/// middle and the ball just above it, moving up and to the right.
pub open spec fn initial_state() -> Breakout {
    Breakout {
        bricks: low_mask(BRICKS_BITS as u64),
        paddle_pos: PADDLE_START_X,
        ball_pos_x: BALL_START_X,
        ball_pos_y: BALL_START_Y,
        ball_vel: BALL_UP_RIGHT,
    }
}

/// The rightmost column of the paddle's left edge.
pub open spec fn paddle_max() -> int {
    BOARD_WIDTH - PADDLE_WIDTH
}

/// The paddle's column after the held keys moved it: left by a step, but not
/// past column 0, when it is not already there; then right by a step, but not
/// past `paddle_max()`, when it is still left of that.
pub open spec fn moved_paddle(paddle_pos: u8, left: bool, right: bool) -> u8 {
    let after_left = if left && paddle_pos > 0 {
        if paddle_pos >= PADDLE_STEP {
            (paddle_pos - PADDLE_STEP) as u8
        } else {
            0u8
        }
    } else {
        paddle_pos
    };
    if right && after_left < paddle_max() {
        if after_left + PADDLE_STEP <= paddle_max() {
            (after_left + PADDLE_STEP) as u8
        } else {
            paddle_max() as u8
        }
    } else {
        after_left
    }
}

/// A coordinate moved by `d` in 8-bit two's complement arithmetic.
pub open spec fn advanced(p: u8, d: int) -> u8 {
    (p + d) as u8
}

/// The state after the paddle moved and the ball took its tentative step,
/// before any collision is resolved.
pub open spec fn moved_state(s: Breakout, left: bool, right: bool) -> Breakout {
    Breakout {
        paddle_pos: moved_paddle(s.paddle_pos, left, right),
        ball_pos_x: advanced(s.ball_pos_x, dx_of(s.ball_vel)),
        ball_pos_y: advanced(s.ball_pos_y, dy_of(s.ball_vel)),
        ..s
    }
}

/// The collision that the step from `s` resolves.
pub open spec fn step_collision(s: Breakout, left: bool, right: bool) -> Collision {
    collision_of(
        moved_state(s, left, right),
        dx_of(s.ball_vel),
        dy_of(s.ball_vel),
        s.ball_pos_x,
        s.ball_pos_y,
    )
}

/// The state after one frame from `s` with the given keys held.
pub open spec fn next_state(s: Breakout, left: bool, right: bool) -> Breakout {
    respond(moved_state(s, left, right), step_collision(s, left, right), s.ball_pos_x, s.ball_pos_y)
}

/// The state word after one frame from `word`.
pub open spec fn step_word(word: u64, left: bool, right: bool) -> u64 {
    encode(next_state(decode(word), left, right))
}

/// The state word after one frame for each `(left, right)` pair of `inputs`,
/// in order.
pub open spec fn run(word: u64, inputs: Seq<(bool, bool)>) -> u64
    decreases inputs.len(),
{
    if inputs.len() == 0 {
        word
    } else {
        let before = run(word, inputs.drop_last());
        step_word(before, inputs.last().0, inputs.last().1)
    }
}

/// The number of bricks standing among the first `n` of `bricks`.
pub open spec fn count_bricks(bricks: u64, n: nat) -> nat
    decreases n,
{
    if n == 0 {
        0
    } else {
        count_bricks(bricks, (n - 1) as nat) + if brick_present(bricks, (n - 1) as u64) {
            1nat
        } else {
            0nat
        }
    }
}

/// The number of bricks standing in the state that `word` holds.
pub open spec fn brick_count(word: u64) -> nat {
    count_bricks(decode(word).bricks, N_BRICKS as nat)
}

/// The state at the start of a game.
pub fn initial() -> (r: Breakout)
    ensures
        r == initial_state(),
        r.valid(),
{
    proof {
        lemma_layout_masks();
        assert(1u64 << 40u8 == 0x100_0000_0000u64) by (bit_vector);
        assert(low_mask(40) == ((1u64 << 40u64) - 1) as u64);
    }
    Breakout {
        bricks: (1u64 << N_BRICKS) - 1,
        paddle_pos: ((BOARD_WIDTH - PADDLE_WIDTH) / 2) as u8,
        ball_pos_x: BALL_START_X,
        ball_pos_y: BALL_START_Y,
        ball_vel: BALL_UP_RIGHT,
    }
}

/// The state word at the start of a game.
pub fn initial_word() -> (r: u64)
    ensures
        r == encode(initial_state()),
        decode(r) == initial_state(),
{
    let s = initial();
    proof {
        lemma_decode_encode(s);
    }
    to_u64(&s)
}

/// Moves the paddle for the held keys.
pub fn move_paddle(paddle_pos: u8, left: bool, right: bool) -> (r: u8)
    ensures
        r == moved_paddle(paddle_pos, left, right),
{
    let mut pos = paddle_pos;
    if left && pos > 0 {
        if pos >= PADDLE_STEP {
            pos = pos - PADDLE_STEP;
        } else {
            pos = 0;
        }
    }
    let max = BOARD_WIDTH - PADDLE_WIDTH;
    if right && pos < max {
        if pos + PADDLE_STEP <= max {
            pos = pos + PADDLE_STEP;
        } else {
            pos = max;
        }
    }
    pos
}

/// Runs one frame on a decoded state and tells which collision it resolved.
pub fn advance(state: &mut Breakout, left: bool, right: bool) -> (c: Collision)
    requires
        old(state).valid(),
    ensures
        c == step_collision(*old(state), left, right),
        *final(state) == next_state(*old(state), left, right),
        final(state).valid(),
{
    proof {
        lemma_next_state_valid(*state, left, right);
    }
    state.paddle_pos = move_paddle(state.paddle_pos, left, right);
    let (dx, dy) = velocity_delta(state.ball_vel);
    let old_ball_x = state.ball_pos_x;
    let old_ball_y = state.ball_pos_y;
    state.ball_pos_x = (old_ball_x as i16 + dx as i16) as u8;
    state.ball_pos_y = (old_ball_y as i16 + dy as i16) as u8;
    handle_collisions(state, dx, dy, old_ball_x, old_ball_y)
}

/// The state word after one frame from `state` with the given keys held.
pub fn step(state: u64, left: bool, right: bool) -> (r: u64)
    ensures
        r == step_word(state, left, right),
        decode(r) == next_state(decode(state), left, right),
        decode(r).ball_vel <= 3,
        decode(state).paddle_pos <= paddle_max() ==> decode(r).paddle_pos <= paddle_max(),
{
    let mut s = from_u64(state);
    advance(&mut s, left, right);
    proof {
        lemma_decode_encode(s);
    }
    to_u64(&s)
}

/// The state word after one frame from `state` with the keys of `input` held.
pub fn update_state(state: u64, input: &Input) -> (r: u64)
    ensures
        r == step_word(state, input.keys@.contains(Key::Left), input.keys@.contains(Key::Right)),
{
    let left = input.is_key_down(Key::Left);
    let right = input.is_key_down(Key::Right);
    step(state, left, right)
}

/// A frame from a valid state leads to a valid state.
pub proof fn lemma_next_state_valid(s: Breakout, left: bool, right: bool)
    requires
        s.valid(),
    ensures
        next_state(s, left, right).valid(),
{
    lemma_layout_masks();
    let c = step_collision(s, left, right);
    if let Collision::Brick { index, vertical } = c {
        let b = s.bricks;
        assert(cleared(b, index) <= b) by (bit_vector);
    }
}

/// Removing a standing brick leaves one brick fewer among the first `n`
/// when it is one of them, and as many otherwise.
pub proof fn lemma_count_cleared(bricks: u64, index: u8, n: nat)
    requires
        index < 64,
        n <= 64,
        brick_present(bricks, index as u64),
    ensures
        count_bricks(cleared(bricks, index), n) + (if index < n { 1nat } else { 0nat })
            == count_bricks(bricks, n),
    decreases n,
{
    if n > 0 {
        lemma_count_cleared(bricks, index, (n - 1) as nat);
        let j = (n - 1) as u64;
        if j == index as u64 {
            assert(!brick_present(cleared(bricks, index), j)) by (bit_vector)
                requires
                    j == index as u64,
                    index < 64,
            ;
        } else {
            assert(brick_present(cleared(bricks, index), j) == brick_present(bricks, j))
                by (bit_vector)
                requires
                    j != index as u64,
                    j < 64,
                    index < 64,
            ;
        }
    }
}

/// One frame removes at most one brick: the brick count stays or drops by one.
pub proof fn lemma_step_brick_count(word: u64, left: bool, right: bool)
    ensures
        brick_count(step_word(word, left, right)) == brick_count(word)
            || brick_count(step_word(word, left, right)) + 1 == brick_count(word),
{
    let s = decode(word);
    lemma_decoded_fields_fit(word);
    lemma_next_state_valid(s, left, right);
    lemma_decode_encode(next_state(s, left, right));
    let c = step_collision(s, left, right);
    if let Collision::Brick { index, vertical } = c {
        lemma_count_cleared(s.bricks, index, N_BRICKS as nat);
    }
}

/// Over any sequence of frames the brick count never grows.
pub proof fn lemma_run_brick_count(word: u64, inputs: Seq<(bool, bool)>)
    ensures
        brick_count(run(word, inputs)) <= brick_count(word),
    decreases inputs.len(),
{
    if inputs.len() > 0 {
        let before = run(word, inputs.drop_last());
        lemma_run_brick_count(word, inputs.drop_last());
        lemma_step_brick_count(before, inputs.last().0, inputs.last().1);
    }
}

/// A frame keeps a paddle that is on the board on the board.
pub proof fn lemma_step_paddle_bound(word: u64, left: bool, right: bool)
    requires
        decode(word).paddle_pos <= paddle_max(),
    ensures
        decode(step_word(word, left, right)).paddle_pos <= paddle_max(),
{
    lemma_decoded_fields_fit(word);
    lemma_next_state_valid(decode(word), left, right);
    lemma_decode_encode(next_state(decode(word), left, right));
}

/// Over any sequence of frames a paddle that starts on the board stays on it,
/// and the direction code stays one of the four codes.
pub proof fn lemma_run_paddle_bound(word: u64, inputs: Seq<(bool, bool)>)
    requires
        decode(word).paddle_pos <= paddle_max(),
    ensures
        decode(run(word, inputs)).paddle_pos <= paddle_max(),
        decode(run(word, inputs)).ball_vel <= 3,
    decreases inputs.len(),
{
    lemma_decoded_fields_fit(run(word, inputs));
    if inputs.len() > 0 {
        let before = run(word, inputs.drop_last());
        lemma_run_paddle_bound(word, inputs.drop_last());
        lemma_step_paddle_bound(before, inputs.last().0, inputs.last().1);
    }
}

/// At most one collision category responds in a frame. The category that
/// responds is the first whose condition holds, in the order bottom wall,
/// walls, paddle, brick; the conditions of the earlier ones do not hold. The
/// frame's result is the moved state changed by that response alone: the
/// bottom wall, the walls and the paddle keep every brick, the paddle keeps
/// the ball's column, a brick hit removes that brick and puts the ball back on
/// one axis only, and no collision keeps the moved state as it is.
pub proof fn lemma_one_response_per_frame(s: Breakout, left: bool, right: bool)
    ensures
        (step_collision(s, left, right) == Collision::BottomWall) == hits_bottom(
            s.ball_pos_y,
            dy_of(s.ball_vel),
        ),
        (step_collision(s, left, right) is Wall) == (!hits_bottom(s.ball_pos_y, dy_of(s.ball_vel))
            && (hits_side_wall(s.ball_pos_x, dx_of(s.ball_vel)) || hits_top_wall(
            s.ball_pos_y,
            dy_of(s.ball_vel),
        ))),
        (step_collision(s, left, right) == Collision::Paddle) == (!hits_bottom(
            s.ball_pos_y,
            dy_of(s.ball_vel),
        ) && !hits_side_wall(s.ball_pos_x, dx_of(s.ball_vel)) && !hits_top_wall(
            s.ball_pos_y,
            dy_of(s.ball_vel),
        ) && paddle_hit(
            moved_state(s, left, right).ball_pos_x,
            moved_state(s, left, right).ball_pos_y,
            s.ball_pos_y,
            moved_state(s, left, right).paddle_pos,
            dy_of(s.ball_vel),
        )),
        (step_collision(s, left, right) is Brick) == (!hits_bottom(s.ball_pos_y, dy_of(s.ball_vel))
            && !hits_side_wall(s.ball_pos_x, dx_of(s.ball_vel)) && !hits_top_wall(
            s.ball_pos_y,
            dy_of(s.ball_vel),
        ) && !paddle_hit(
            moved_state(s, left, right).ball_pos_x,
            moved_state(s, left, right).ball_pos_y,
            s.ball_pos_y,
            moved_state(s, left, right).paddle_pos,
            dy_of(s.ball_vel),
        ) && brick_hit(
            moved_state(s, left, right).ball_pos_x,
            moved_state(s, left, right).ball_pos_y,
            s.bricks,
        ) is Some),
        !(step_collision(s, left, right) is Brick) ==> next_state(s, left, right).bricks
            == s.bricks,
        step_collision(s, left, right) == Collision::Paddle ==> next_state(
            s,
            left,
            right,
        ).ball_pos_x == moved_state(s, left, right).ball_pos_x,
        step_collision(s, left, right) matches Collision::Brick { index, vertical } ==> {
            &&& next_state(s, left, right).bricks == cleared(s.bricks, index)
            &&& vertical ==> next_state(s, left, right).ball_pos_x == moved_state(
                s,
                left,
                right,
            ).ball_pos_x && next_state(s, left, right).ball_pos_y == s.ball_pos_y
            &&& !vertical ==> next_state(s, left, right).ball_pos_y == moved_state(
                s,
                left,
                right,
            ).ball_pos_y && next_state(s, left, right).ball_pos_x == s.ball_pos_x
        },
        step_collision(s, left, right) == Collision::Nothing ==> next_state(s, left, right)
            == moved_state(s, left, right),
{
}

} // verus!
