use bitwise_games::draw_command::{Circle, Color, DrawCommand, Line, Palette, Rectangle};
use bitwise_games::frame_buffer::FrameBuffer;
use bitwise_games::game::render;
use bitwise_games::render::{board_commands, draw_64x64, scale_framebuffer};
use bitwise_games::breakout::initial;
use bitwise_games::state::to_u64;

const RED: u32 = 0xFFFF_004D;
const DARK_BLUE: u32 = 0xFF1D_2B53;
const WHITE: u32 = 0xFFFF_F1E8;
const BLUE: u32 = 0xFF29_ADFF;

fn painted(fb: &FrameBuffer) -> Vec<(u32, u32)> {
    let mut cells = Vec::new();
    for y in 0..fb.height {
        for x in 0..fb.width {
            if fb.pixels[(y * fb.width + x) as usize] != 0 {
                cells.push((x, y));
            }
        }
    }
    cells
}

#[test]
fn colors_pack_into_argb() {
    let c = Color { r: 1, g: 2, b: 3, a: 4 };
    assert_eq!(c.to_argb(), 0x0401_0203);
    assert_eq!(Color::from_rgb(255, 0, 77), Color { r: 255, g: 0, b: 77, a: 255 });
    assert_eq!(Palette::Red.color().to_argb(), RED);
    assert_eq!(Palette::DarkBlue.color().to_argb(), DARK_BLUE);
    assert_eq!(Palette::White.color().to_argb(), WHITE);
}

#[test]
fn new_frame_buffer_is_black() {
    let fb = FrameBuffer::new(3, 2);
    assert_eq!(fb.pixels, vec![0; 6]);
    assert_eq!((fb.width, fb.height), (3, 2));
}

#[test]
fn set_pixel_ignores_cells_outside() {
    let mut fb = FrameBuffer::new(3, 2);
    let c = Color { r: 0, g: 0, b: 1, a: 0 };
    fb.set_pixel(2, 1, &c);
    fb.set_pixel(3, 0, &c);
    fb.set_pixel(0, 2, &c);
    assert_eq!(fb.pixels, vec![0, 0, 0, 0, 0, 1]);
}

#[test]
fn rectangle_is_clipped_to_the_buffer() {
    let mut fb = FrameBuffer::new(4, 3);
    let c = Color { r: 0, g: 0, b: 7, a: 0 };
    fb.draw(&DrawCommand::Rectangle(Rectangle { x: 2, y: 1, width: 5, height: 1, color: c }));
    assert_eq!(fb.pixels, vec![0, 0, 0, 0, 0, 0, 7, 7, 0, 0, 0, 0]);
    fb.draw(&DrawCommand::Rectangle(Rectangle { x: u32::MAX, y: u32::MAX, width: u32::MAX, height: 9, color: c }));
    assert_eq!(fb.pixels, vec![0, 0, 0, 0, 0, 0, 7, 7, 0, 0, 0, 0]);
}

#[test]
fn line_follows_bresenham() {
    let mut fb = FrameBuffer::new(4, 2);
    let c = Color { r: 0, g: 0, b: 1, a: 0 };
    fb.draw(&DrawCommand::Line(Line { x1: 0, y1: 0, x2: 3, y2: 1, color: c }));
    assert_eq!(painted(&fb), vec![(0, 0), (1, 0), (2, 1), (3, 1)]);
    let mut back = FrameBuffer::new(4, 2);
    back.draw(&DrawCommand::Line(Line { x1: 3, y1: 1, x2: 0, y2: 0, color: c }));
    assert!(back.pixels[0] == 1 && back.pixels[7] == 1);
}

#[test]
fn vertical_and_single_point_lines() {
    let mut fb = FrameBuffer::new(3, 4);
    let c = Color { r: 0, g: 0, b: 1, a: 0 };
    fb.draw(&DrawCommand::Line(Line { x1: 1, y1: 3, x2: 1, y2: 0, color: c }));
    assert_eq!(painted(&fb), vec![(1, 0), (1, 1), (1, 2), (1, 3)]);
    let mut dot = FrameBuffer::new(3, 4);
    dot.draw(&DrawCommand::Line(Line { x1: 2, y1: 2, x2: 2, y2: 2, color: c }));
    assert_eq!(painted(&dot), vec![(2, 2)]);
}

#[test]
fn circle_outline() {
    let mut fb = FrameBuffer::new(5, 5);
    let c = Color { r: 0, g: 0, b: 1, a: 0 };
    fb.draw(&DrawCommand::Circle(Circle { x: 2, y: 2, radius: 1, color: c }));
    assert_eq!(painted(&fb), vec![(2, 1), (1, 2), (3, 2), (2, 3)]);
    let mut dot = FrameBuffer::new(5, 5);
    dot.draw(&DrawCommand::Circle(Circle { x: 2, y: 2, radius: 0, color: c }));
    assert_eq!(painted(&dot), vec![(2, 2)]);
    let mut edge = FrameBuffer::new(5, 5);
    edge.draw(&DrawCommand::Circle(Circle { x: 0, y: 0, radius: 2, color: c }));
    assert!(edge.pixels[2] == 1 && edge.pixels[10] == 1);
}

#[test]
fn later_commands_draw_over_earlier_ones() {
    let mut fb = FrameBuffer::new(2, 1);
    let a = Color { r: 0, g: 0, b: 1, a: 0 };
    let b = Color { r: 0, g: 0, b: 2, a: 0 };
    fb.draw_list(&vec![
        DrawCommand::Rectangle(Rectangle { x: 0, y: 0, width: 2, height: 1, color: a }),
        DrawCommand::Rectangle(Rectangle { x: 1, y: 0, width: 1, height: 1, color: b }),
    ]);
    assert_eq!(fb.pixels, vec![1, 2]);
}

#[test]
fn board_of_the_initial_state() {
    let s = initial();
    let cmds = board_commands(&s);
    assert_eq!(cmds.len(), 1 + 40 + 2);
    let px = draw_64x64(&s);
    assert_eq!(px.len(), 64 * 64);
    assert_eq!(px[0], RED);
    assert_eq!(px[63 + 3 * 64], RED);
    assert_eq!(px[16 * 64], BLUE);
    assert_eq!(px[20 * 64], DARK_BLUE);
    assert_eq!(px[62 * 64 + 26], WHITE);
    assert_eq!(px[63 * 64 + 37], WHITE);
    assert_eq!(px[62 * 64 + 38], DARK_BLUE);
    assert_eq!(px[57 * 64 + 31], WHITE);
    assert_eq!(px[58 * 64 + 32], WHITE);
    assert_eq!(px[57 * 64 + 33], DARK_BLUE);
}

#[test]
fn destroyed_bricks_are_not_drawn() {
    let mut s = initial();
    s.bricks &= !1u64;
    let px = draw_64x64(&s);
    assert_eq!(px[0], DARK_BLUE);
    assert_eq!(px[8], RED);
    assert_eq!(board_commands(&s).len(), 1 + 39 + 2);
}

#[test]
fn scaling_repeats_each_pixel_in_a_block() {
    let src: Vec<u32> = (0..4096u32).collect();
    let out = scale_framebuffer(&src, 2);
    assert_eq!(out.len(), 128 * 128);
    assert_eq!(out[0], 0);
    assert_eq!(out[1], 0);
    assert_eq!(out[128], 0);
    assert_eq!(out[129], 0);
    assert_eq!(out[2], 1);
    assert_eq!(out[2 * 128], 64);
    assert_eq!(out[127 * 128 + 127], 4095);
    assert!(scale_framebuffer(&src, 0).is_empty());
}

#[test]
fn window_frame_scales_the_board_by_ten() {
    let s = initial();
    let frame = render(to_u64(&s));
    let board = draw_64x64(&s);
    assert_eq!(frame.len(), 640 * 640);
    for (x, y) in [(0usize, 0usize), (639, 639), (315, 575), (265, 620), (100, 205)] {
        assert_eq!(frame[y * 640 + x], board[(y / 10) * 64 + x / 10]);
    }
}
