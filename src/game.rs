//! The two operations that a host loop calls: start a game, and run a frame.

use vstd::prelude::*;
use crate::breakout::{initial, initial_state, step_word, update_state};
use crate::input::{Input, Key};
use crate::render::{board_frame, draw_64x64, scale_framebuffer, scaled_pixel};
use crate::state::{decode, encode, from_u64, lemma_decode_encode, to_u64, BOARD_WIDTH};

verus! {

/// Window pixels per board unit along each axis.
pub const SCALE: u32 = 10;
/// Side of the square window in pixels.
pub const WINDOW_SIDE: usize = 640;
/// Frames per second that the host loop aims at.
pub const FPS: usize = 30;

/// The window's pixels for the state that `word` holds: the board drawn at
/// one pixel per unit and scaled up by `SCALE`.
pub open spec fn window_frame(word: u64, pixels: Seq<u32>) -> bool {
    &&& pixels.len() == WINDOW_SIDE * WINDOW_SIDE
    &&& forall|k: int|
        0 <= k < pixels.len() ==> #[trigger] pixels[k] == scaled_pixel(
            board_frame(decode(word)),
            BOARD_WIDTH as int,
            SCALE as int,
            k,
        )
}

/// Draws the window's pixels for a state word.
pub fn render(state: u64) -> (r: Vec<u32>)
    ensures
        window_frame(state, r@),
{
    let s = from_u64(state);
    let board = draw_64x64(&s);
    scale_framebuffer(board.as_slice(), SCALE)
}

/// Starts a game: the state word with every brick standing, the paddle in
/// the middle and the ball above it moving up and to the right, and its frame.
pub fn new_game() -> (r: (u64, Vec<u32>))
    ensures
        r.0 == encode(initial_state()),
        decode(r.0) == initial_state(),
        window_frame(r.0, r.1@),
{
    let s = initial();
    proof {
        lemma_decode_encode(s);
    }
    let word = to_u64(&s);
    (word, render(word))
}

/// Runs one frame with the keys of `input` held: the next state word and its frame.
pub fn update(state: u64, input: &Input) -> (r: (u64, Vec<u32>))
    ensures
        r.0 == step_word(
            state,
            input.keys@.contains(Key::Left),
            input.keys@.contains(Key::Right),
        ),
        window_frame(r.0, r.1@),
{
    let next = update_state(state, input);
    (next, render(next))
}

} // verus!
