//! Drawing a decoded state: the board as a list of draw commands, its
//! rasterization at one pixel per board unit, and the upscaling of that frame.

use vstd::prelude::*;
use vstd::arithmetic::div_mod::lemma_fundamental_div_mod_converse;
use crate::collision::brick_present;
use crate::draw_command::{palette_color, DrawCommand, Palette, Rectangle};
use crate::frame_buffer::{all_rectangles, paint_rects, FrameBuffer};
use crate::state::{
    Breakout, BALL_SIZE, BOARD_HEIGHT, BOARD_WIDTH, BRICK_HEIGHT, BRICK_WIDTH, N_BRICKS,
    N_BRICK_COLS, PADDLE_HEIGHT, PADDLE_WIDTH, PADDLE_Y,
};

verus! {

/// The palette entry of the bricks of a row, from the top row down.
pub open spec fn row_palette(row: int) -> Palette {
    if row == 0 {
        Palette::Red
    } else if row == 1 {
        Palette::Orange
    } else if row == 2 {
        Palette::Yellow
    } else if row == 3 {
        Palette::Green
    } else {
        Palette::Blue
    }
}

/// The rectangle of the brick `index`.
pub open spec fn brick_rect(index: int) -> Rectangle {
    Rectangle {
        x: ((index % N_BRICK_COLS as int) * BRICK_WIDTH) as u32,
        y: ((index / N_BRICK_COLS as int) * BRICK_HEIGHT) as u32,
        width: BRICK_WIDTH as u32,
        height: BRICK_HEIGHT as u32,
        color: palette_color(row_palette(index / N_BRICK_COLS as int)),
    }
}

/// One rectangle for each standing brick among the first `n`, by index.
pub open spec fn brick_commands(bricks: u64, n: nat) -> Seq<DrawCommand>
    decreases n,
{
    if n == 0 {
        seq![]
    } else {
        brick_commands(bricks, (n - 1) as nat) + if brick_present(bricks, (n - 1) as u64) {
            seq![DrawCommand::Rectangle(brick_rect(n - 1))]
        } else {
            seq![]
        }
    }
}

/// The board's background.
pub open spec fn background_rect() -> Rectangle {
    Rectangle {
        x: 0,
        y: 0,
        width: BOARD_WIDTH as u32,
        height: BOARD_HEIGHT as u32,
        color: palette_color(Palette::DarkBlue),
    }
}

/// The paddle of a state.
pub open spec fn paddle_rect(s: Breakout) -> Rectangle {
    Rectangle {
        x: s.paddle_pos as u32,
        y: PADDLE_Y as u32,
        width: PADDLE_WIDTH as u32,
        height: PADDLE_HEIGHT as u32,
        color: palette_color(Palette::White),
    }
}

/// The ball of a state.
pub open spec fn ball_rect(s: Breakout) -> Rectangle {
    Rectangle {
        x: s.ball_pos_x as u32,
        y: s.ball_pos_y as u32,
        width: BALL_SIZE as u32,
        height: BALL_SIZE as u32,
        color: palette_color(Palette::White),
    }
}

/// The draw commands of a state, back to front: background, standing
/// bricks, paddle, ball.
pub open spec fn board_commands_of(s: Breakout) -> Seq<DrawCommand> {
    seq![DrawCommand::Rectangle(background_rect())] + brick_commands(s.bricks, N_BRICKS as nat)
        + seq![DrawCommand::Rectangle(paddle_rect(s)), DrawCommand::Rectangle(ball_rect(s))]
}

/// The pixels of a state's board, one pixel per board unit.
pub open spec fn board_frame(s: Breakout) -> Seq<u32> {
    paint_rects(
        Seq::new((BOARD_WIDTH * BOARD_HEIGHT) as nat, |k: int| 0u32),
        BOARD_WIDTH as u32,
        BOARD_HEIGHT as u32,
        board_commands_of(s),
    )
}

/// The frame `frame` of `side` by `side` pixels scaled up by `scale`: pixel
/// `k` of the result, in rows of `side * scale`, repeats the source pixel
/// under it.
pub open spec fn scaled_pixel(frame: Seq<u32>, side: int, scale: int, k: int) -> u32 {
    frame[((k / (side * scale)) / scale) * side + (k % (side * scale)) / scale]
}

/// The standing bricks among the first `n` have only rectangles.
pub proof fn lemma_brick_commands_are_rectangles(bricks: u64, n: nat)
    ensures
        all_rectangles(brick_commands(bricks, n)),
    decreases n,
{
    if n > 0 {
        lemma_brick_commands_are_rectangles(bricks, (n - 1) as nat);
        let a = brick_commands(bricks, (n - 1) as nat);
        let b = if brick_present(bricks, (n - 1) as u64) {
            seq![DrawCommand::Rectangle(brick_rect(n - 1))]
        } else {
            seq![]
        };
        assert forall|i: int| 0 <= i < (a + b).len() implies #[trigger] (a + b)[i] is Rectangle by {
            if i < a.len() {
                assert((a + b)[i] == a[i]);
            } else {
                assert((a + b)[i] == b[i - a.len()]);
            }
        }
    }
}

/// The rectangle of a brick.
fn brick_rectangle(index: u8) -> (r: Rectangle)
    requires
        index < N_BRICKS,
    ensures
        r == brick_rect(index as int),
{
    let row = index / N_BRICK_COLS;
    let col = index % N_BRICK_COLS;
    let palette = if row == 0 {
        Palette::Red
    } else if row == 1 {
        Palette::Orange
    } else if row == 2 {
        Palette::Yellow
    } else if row == 3 {
        Palette::Green
    } else {
        Palette::Blue
    };
    Rectangle {
        x: col as u32 * BRICK_WIDTH as u32,
        y: row as u32 * BRICK_HEIGHT as u32,
        width: BRICK_WIDTH as u32,
        height: BRICK_HEIGHT as u32,
        color: palette.color(),
    }
}

/// The draw commands of a state, back to front.
pub fn board_commands(state: &Breakout) -> (r: Vec<DrawCommand>)
    ensures
        r@ == board_commands_of(*state),
        all_rectangles(r@),
{
    let mut commands: Vec<DrawCommand> = Vec::new();
    commands.push(
        DrawCommand::Rectangle(
            Rectangle {
                x: 0,
                y: 0,
                width: BOARD_WIDTH as u32,
                height: BOARD_HEIGHT as u32,
                color: Palette::DarkBlue.color(),
            },
        ),
    );
    let mut i: u8 = 0;
    while i < N_BRICKS
        invariant
            i <= N_BRICKS,
            commands@ == seq![DrawCommand::Rectangle(background_rect())] + brick_commands(
                state.bricks,
                i as nat,
            ),
        decreases N_BRICKS - i,
    {
        if (state.bricks >> i) & 1 == 1 {
            commands.push(DrawCommand::Rectangle(brick_rectangle(i)));
        }
        proof {
            assert(brick_commands(state.bricks, (i + 1) as nat) == brick_commands(state.bricks, i as nat) + if brick_present(state.bricks, i as u64) {
                seq![DrawCommand::Rectangle(brick_rect(i as int))]
            } else {
                seq![]
            });
        }
        i = i + 1;
        assert(commands@ =~= seq![DrawCommand::Rectangle(background_rect())] + brick_commands(state.bricks, i as nat));
    }
    commands.push(
        DrawCommand::Rectangle(
            Rectangle {
                x: state.paddle_pos as u32,
                y: PADDLE_Y as u32,
                width: PADDLE_WIDTH as u32,
                height: PADDLE_HEIGHT as u32,
                color: Palette::White.color(),
            },
        ),
    );
    commands.push(
        DrawCommand::Rectangle(
            Rectangle {
                x: state.ball_pos_x as u32,
                y: state.ball_pos_y as u32,
                width: BALL_SIZE as u32,
                height: BALL_SIZE as u32,
                color: Palette::White.color(),
            },
        ),
    );
    proof {
        assert(commands@ =~= board_commands_of(*state));
        lemma_brick_commands_are_rectangles(state.bricks, N_BRICKS as nat);
        let bricks = brick_commands(state.bricks, N_BRICKS as nat);
        assert forall|i: int| 0 <= i < commands@.len() implies #[trigger] commands@[i] is Rectangle by {
            if 1 <= i < 1 + bricks.len() {
                assert(commands@[i] == bricks[i - 1]);
            }
        }
    }
    commands
}

/// Draws a state's board at one pixel per board unit.
pub fn draw_64x64(state: &Breakout) -> (r: Vec<u32>)
    ensures
        r@ == board_frame(*state),
        r@.len() == BOARD_WIDTH * BOARD_HEIGHT,
{
    let mut fb = FrameBuffer::new(BOARD_WIDTH as u32, BOARD_HEIGHT as u32);
    let draw_commands = board_commands(state);
    fb.draw_list(&draw_commands);
    fb.pixels
}

/// Scales a square frame of `BOARD_WIDTH` pixels a side up by
/// `scale_factor`: each source pixel becomes a block of `scale_factor` by
/// `scale_factor` pixels.
pub fn scale_framebuffer(fb_64x64: &[u32], scale_factor: u32) -> (r: Vec<u32>)
    requires
        fb_64x64@.len() == BOARD_WIDTH * BOARD_HEIGHT,
        (BOARD_WIDTH * scale_factor) * (BOARD_WIDTH * scale_factor) <= usize::MAX,
    ensures
        r@.len() == (BOARD_WIDTH * scale_factor) * (BOARD_WIDTH * scale_factor),
        forall|k: int|
            0 <= k < r@.len() ==> #[trigger] r@[k] == scaled_pixel(
                fb_64x64@,
                BOARD_WIDTH as int,
                scale_factor as int,
                k,
            ),
{
    let ghost side = BOARD_WIDTH as int;
    let ghost s = scale_factor as int;
    assert(64 * scale_factor <= usize::MAX) by (nonlinear_arith)
        requires
            (64 * scale_factor) * (64 * scale_factor) <= usize::MAX,
    ;
    let output_size: usize = BOARD_WIDTH as usize * scale_factor as usize;
    let mut scaled_fb: Vec<u32> = Vec::new();
    let mut y: usize = 0;
    while y < output_size
        invariant
            output_size == side * s,
            side == 64,
            s == scale_factor,
            fb_64x64@.len() == side * side,
            output_size * output_size <= usize::MAX,
            y <= output_size,
            scaled_fb@.len() == y * output_size,
            forall|k: int|
                0 <= k < scaled_fb@.len() ==> #[trigger] scaled_fb@[k] == scaled_pixel(
                    fb_64x64@,
                    side,
                    s,
                    k,
                ),
        decreases output_size - y,
    {
        let mut x: usize = 0;
        while x < output_size
            invariant
                output_size == side * s,
                side == 64,
                s == scale_factor,
                s > 0,
                fb_64x64@.len() == side * side,
                output_size * output_size <= usize::MAX,
                y < output_size,
                x <= output_size,
                scaled_fb@.len() == y * output_size + x,
                forall|k: int|
                    0 <= k < scaled_fb@.len() ==> #[trigger] scaled_fb@[k] == scaled_pixel(
                        fb_64x64@,
                        side,
                        s,
                        k,
                    ),
            decreases output_size - x,
        {
            let src_y = y / scale_factor as usize;
            let src_x = x / scale_factor as usize;
            proof {
                assert(src_y < side && src_x < side) by (nonlinear_arith)
                    requires
                        src_y as int == y as int / s,
                        src_x as int == x as int / s,
                        y < side * s,
                        x < side * s,
                        s > 0,
                ;
                assert(y * output_size + x < output_size * output_size) by (nonlinear_arith)
                    requires
                        y < output_size,
                        x < output_size,
                ;
                let k = y * output_size + x;
                lemma_fundamental_div_mod_converse(k, output_size as int, y as int, x as int);
            }
            assert(src_y * 64 + src_x < 64 * 64) by (nonlinear_arith)
                requires
                    src_y < 64,
                    src_x < 64,
            ;
            let pixel = fb_64x64[src_y * BOARD_WIDTH as usize + src_x];
            scaled_fb.push(pixel);
            x = x + 1;
        }
        proof {
            assert((y + 1) * output_size == y * output_size + output_size) by (nonlinear_arith);
        }
        y = y + 1;
    }
    scaled_fb
}

} // verus!
