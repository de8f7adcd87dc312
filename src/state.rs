//! The decoded game state and its layout inside the 64-bit state word.

use vstd::prelude::*;
use crate::bitfield::{extract, get_bits, inject, low_mask, set_bits};

verus! {

/// Rows of bricks.
pub const N_BRICK_ROWS: u8 = 5;
/// Bricks in each row.
pub const N_BRICK_COLS: u8 = 8;
/// Bricks on the board; brick `row * N_BRICK_COLS + col` is bit of that index.
pub const N_BRICKS: u8 = N_BRICK_ROWS * N_BRICK_COLS;

/// Board width in board units.
pub const BOARD_WIDTH: u8 = 64;
/// Board height in board units.
pub const BOARD_HEIGHT: u8 = 64;
/// Width of one brick.
pub const BRICK_WIDTH: u8 = 8;
/// Height of one brick.
pub const BRICK_HEIGHT: u8 = 4;
/// Side of the square ball.
pub const BALL_SIZE: u8 = 2;
/// Width of the paddle.
pub const PADDLE_WIDTH: u8 = 12;
/// Height of the paddle.
pub const PADDLE_HEIGHT: u8 = 2;
/// Row of the paddle's top edge.
pub const PADDLE_Y: u8 = 62;
/// Distance the paddle moves in one frame.
pub const PADDLE_STEP: u8 = 2;

/// Ball direction code: up and to the left.
pub const BALL_UP_LEFT: u8 = 0;
/// Ball direction code: up and to the right.
pub const BALL_UP_RIGHT: u8 = 1;
/// Ball direction code: down and to the left.
pub const BALL_DOWN_LEFT: u8 = 2;
/// Ball direction code: down and to the right.
pub const BALL_DOWN_RIGHT: u8 = 3;

/// Column of the ball's left edge after a lost ball.
pub const BALL_START_X: u8 = 31;
/// Row of the ball's top edge after a lost ball, just above the paddle.
pub const BALL_START_Y: u8 = 57;
/// Column of the paddle's left edge at the start of a game.
pub const PADDLE_START_X: u8 = 26;

// The layout of the state word, from the least significant bit up.
/// First bit of the bricks mask.
pub const BRICKS_START: u8 = 0;
/// Width of the bricks mask.
pub const BRICKS_BITS: u8 = N_BRICKS;
/// First bit of the paddle position.
pub const PADDLE_START: u8 = 40;
/// First bit of the ball's column.
pub const BALL_X_START: u8 = 46;
/// First bit of the ball's row.
pub const BALL_Y_START: u8 = 52;
/// Width of each of the three position fields.
pub const POS_BITS: u8 = 6;
/// First bit of the ball's direction code.
pub const VEL_START: u8 = 58;
/// Width of the direction code.
pub const VEL_BITS: u8 = 2;
/// Bits of the word that the layout uses; the bits above are reserved.
pub const USED_BITS: u8 = 60;

/// The fields of the layout lie one after the other without overlap and fit
/// the word, leaving the bits from `USED_BITS` up reserved.
pub proof fn lemma_layout_is_packed()
    ensures
        BRICKS_START + BRICKS_BITS == PADDLE_START,
        PADDLE_START + POS_BITS == BALL_X_START,
        BALL_X_START + POS_BITS == BALL_Y_START,
        BALL_Y_START + POS_BITS == VEL_START,
        VEL_START + VEL_BITS == USED_BITS,
        USED_BITS <= 64,
{
}

/// The game state decoded from its word.
#[derive(Clone, Copy, Debug, PartialEq, Eq, Structural)]
pub struct Breakout {
    /// One bit per brick; a set bit is a brick still standing.
    pub bricks: u64,
    /// Column of the paddle's left edge.
    pub paddle_pos: u8,
    /// Column of the ball's left edge.
    pub ball_pos_x: u8,
    /// Row of the ball's top edge.
    pub ball_pos_y: u8,
    /// Direction code of the ball, one of the `BALL_*` codes.
    pub ball_vel: u8,
}

impl Breakout {
    /// Every field fits its width in the layout.
    pub open spec fn valid(&self) -> bool {
        &&& self.bricks <= low_mask(BRICKS_BITS as u64)
        &&& self.paddle_pos < 64
        &&& self.ball_pos_x < 64
        &&& self.ball_pos_y < 64
        &&& self.ball_vel < 4
    }
}

/// The word's reserved bits are clear.
pub open spec fn reserved_clear(word: u64) -> bool {
    word >> (USED_BITS as u64) == 0
}

/// The state that a word holds.
pub open spec fn decode(word: u64) -> Breakout {
    Breakout {
        bricks: extract(word, BRICKS_START as u64, BRICKS_BITS as u64),
        paddle_pos: extract(word, PADDLE_START as u64, POS_BITS as u64) as u8,
        ball_pos_x: extract(word, BALL_X_START as u64, POS_BITS as u64) as u8,
        ball_pos_y: extract(word, BALL_Y_START as u64, POS_BITS as u64) as u8,
        ball_vel: extract(word, VEL_START as u64, VEL_BITS as u64) as u8,
    }
}

/// The word that holds a state: each field written in turn into a clear word.
pub open spec fn encode(s: Breakout) -> u64 {
    let w0 = inject(0, s.bricks, BRICKS_START as u64, BRICKS_BITS as u64);
    let w1 = inject(w0, s.paddle_pos as u64, PADDLE_START as u64, POS_BITS as u64);
    let w2 = inject(w1, s.ball_pos_x as u64, BALL_X_START as u64, POS_BITS as u64);
    let w3 = inject(w2, s.ball_pos_y as u64, BALL_Y_START as u64, POS_BITS as u64);
    inject(w3, s.ball_vel as u64, VEL_START as u64, VEL_BITS as u64)
}

/// Decodes a state word.
pub fn from_u64(state: u64) -> (r: Breakout)
    ensures
        r == decode(state),
        r.valid(),
{
    proof {
        lemma_layout_masks();
    }
    let bricks: u64 = get_bits(state, BRICKS_START, BRICKS_BITS);
    let paddle_pos: u8 = get_bits(state, PADDLE_START, POS_BITS);
    let ball_pos_x: u8 = get_bits(state, BALL_X_START, POS_BITS);
    let ball_pos_y: u8 = get_bits(state, BALL_Y_START, POS_BITS);
    let ball_vel: u8 = get_bits(state, VEL_START, VEL_BITS);
    proof {
        lemma_decoded_fields_fit(state);
    }
    Breakout { bricks, paddle_pos, ball_pos_x, ball_pos_y, ball_vel }
}

/// Encodes a state into its word.
pub fn to_u64(state: &Breakout) -> (r: u64)
    ensures
        r == encode(*state),
{
    let mut result: u64 = 0;
    result = set_bits(result, state.bricks, BRICKS_START, BRICKS_BITS);
    result = set_bits(result, state.paddle_pos, PADDLE_START, POS_BITS);
    result = set_bits(result, state.ball_pos_x, BALL_X_START, POS_BITS);
    result = set_bits(result, state.ball_pos_y, BALL_Y_START, POS_BITS);
    result = set_bits(result, state.ball_vel, VEL_START, VEL_BITS);
    result
}

/// The masks of the three field widths of the layout.
pub proof fn lemma_layout_masks()
    ensures
        low_mask(BRICKS_BITS as u64) == 0xff_ffff_ffffu64,
        low_mask(POS_BITS as u64) == 63u64,
        low_mask(VEL_BITS as u64) == 3u64,
{
    assert(low_mask(40) == 0xff_ffff_ffffu64) by (bit_vector);
    assert(low_mask(6) == 63u64) by (bit_vector);
    assert(low_mask(2) == 3u64) by (bit_vector);
}

/// Every decoded state is valid.
pub proof fn lemma_decoded_fields_fit(word: u64)
    ensures
        decode(word).valid(),
{
    assert((word >> 0u64) & 0xff_ffff_ffffu64 <= 0xff_ffff_ffffu64) by (bit_vector);
    assert((word >> 40u64) & 63u64 < 64) by (bit_vector);
    assert((word >> 46u64) & 63u64 < 64) by (bit_vector);
    assert((word >> 52u64) & 63u64 < 64) by (bit_vector);
    assert((word >> 58u64) & 3u64 < 4) by (bit_vector);
    lemma_layout_masks();
}

/// Encoding a decoded word gives the word back, when its reserved bits are clear.
pub proof fn lemma_encode_decode(word: u64)
    requires
        reserved_clear(word),
    ensures
        encode(decode(word)) == word,
{
    lemma_layout_masks();
    let b = (word >> 0u64) & 0xff_ffff_ffffu64;
    let p = (word >> 40u64) & 63u64;
    let x = (word >> 46u64) & 63u64;
    let y = (word >> 52u64) & 63u64;
    let v = (word >> 58u64) & 3u64;
    assert(((p as u8) as u64) == p && ((x as u8) as u64) == x && ((y as u8) as u64) == y
        && ((v as u8) as u64) == v) by (bit_vector)
        requires
            p == (word >> 40u64) & 63u64,
            x == (word >> 46u64) & 63u64,
            y == (word >> 52u64) & 63u64,
            v == (word >> 58u64) & 3u64,
    ;
    let w0 = (0u64 & !(0xff_ffff_ffffu64 << 0u64)) | ((b & 0xff_ffff_ffffu64) << 0u64);
    let w1 = (w0 & !(63u64 << 40u64)) | ((p & 63u64) << 40u64);
    let w2 = (w1 & !(63u64 << 46u64)) | ((x & 63u64) << 46u64);
    let w3 = (w2 & !(63u64 << 52u64)) | ((y & 63u64) << 52u64);
    let w4 = (w3 & !(3u64 << 58u64)) | ((v & 3u64) << 58u64);
    assert(w4 == word) by (bit_vector)
        requires
            word >> 60u64 == 0,
            b == (word >> 0u64) & 0xff_ffff_ffffu64,
            p == (word >> 40u64) & 63u64,
            x == (word >> 46u64) & 63u64,
            y == (word >> 52u64) & 63u64,
            v == (word >> 58u64) & 3u64,
            w0 == (0u64 & !(0xff_ffff_ffffu64 << 0u64)) | ((b & 0xff_ffff_ffffu64) << 0u64),
            w1 == (w0 & !(63u64 << 40u64)) | ((p & 63u64) << 40u64),
            w2 == (w1 & !(63u64 << 46u64)) | ((x & 63u64) << 46u64),
            w3 == (w2 & !(63u64 << 52u64)) | ((y & 63u64) << 52u64),
            w4 == (w3 & !(3u64 << 58u64)) | ((v & 3u64) << 58u64),
    ;
}

/// Decoding an encoded valid state gives the state back.
pub proof fn lemma_decode_encode(s: Breakout)
    requires
        s.valid(),
    ensures
        decode(encode(s)) == s,
{
    lemma_layout_masks();
    let b = s.bricks;
    let p = s.paddle_pos as u64;
    let x = s.ball_pos_x as u64;
    let y = s.ball_pos_y as u64;
    let v = s.ball_vel as u64;
    let w = encode(s);
    assert(w == encode(s));
    assert((w >> 0u64) & 0xff_ffff_ffffu64 == b && (w >> 40u64) & 63u64 == p
        && (w >> 46u64) & 63u64 == x && (w >> 52u64) & 63u64 == y
        && (w >> 58u64) & 3u64 == v) by (bit_vector)
        requires
            b <= 0xff_ffff_ffffu64,
            p < 64 && x < 64 && y < 64 && v < 4,
            w == (((((((((0u64 & !(0xff_ffff_ffffu64 << 0u64)) | ((b & 0xff_ffff_ffffu64)
                << 0u64)) & !(63u64 << 40u64)) | ((p & 63u64) << 40u64)) & !(63u64 << 46u64))
                | ((x & 63u64) << 46u64)) & !(63u64 << 52u64)) | ((y & 63u64) << 52u64)) & !(
            3u64 << 58u64)) | ((v & 3u64) << 58u64),
    ;
    assert(((p as u8) as u64) == p) by (bit_vector) requires p < 64;
}

} // verus!
