//! A pixel buffer and the rasterization of draw commands into it.

use vstd::prelude::*;
use vstd::arithmetic::div_mod::lemma_fundamental_div_mod_converse;
use crate::draw_command::{argb, Circle, Color, DrawCommand, Line, Rectangle};

verus! {

/// Pixels in rows of `width`, the top row first; pixel `(x, y)` is at index
/// `y * width + x`.
pub struct FrameBuffer {
    pub pixels: Vec<u32>,
    pub width: u32,
    pub height: u32,
}

/// Index `k` of a buffer of the given width is the pixel `(x, y)`.
pub open spec fn at_cell(width: u32, k: int, x: int, y: int) -> bool {
    width > 0 && k % (width as int) == x && k / (width as int) == y
}

/// The buffer holds the pixel `(x, y)`.
pub open spec fn holds(fb: &FrameBuffer, x: int, y: int) -> bool {
    0 <= x < fb.width && 0 <= y < fb.height && y * fb.width + x < fb.pixels@.len()
}

/// Pixels `pixels` with every cell of columns `x0 .. x1` and rows `y0 .. y1`
/// set to `value`.
pub open spec fn paint_region(
    pixels: Seq<u32>,
    width: u32,
    x0: int,
    x1: int,
    y0: int,
    y1: int,
    value: u32,
) -> Seq<u32> {
    Seq::new(
        pixels.len(),
        |k: int|
            if width > 0 && x0 <= k % (width as int) < x1 && y0 <= k / (width as int) < y1 {
                value
            } else {
                pixels[k]
            },
    )
}

/// The pixels of a `width` by `height` buffer after a rectangle is drawn on
/// them: every cell of the rectangle inside the buffer takes its color.
pub open spec fn paint_rect(pixels: Seq<u32>, width: u32, height: u32, r: Rectangle) -> Seq<u32> {
    paint_region(
        pixels,
        width,
        r.x as int,
        if r.x + r.width <= width { r.x + r.width } else { width as int },
        r.y as int,
        if r.y + r.height <= height { r.y + r.height } else { height as int },
        argb(r.color),
    )
}

/// Each pixel of `after` is the one of `before`, or `value` at a cell inside
/// columns `x0 ..= x1` and rows `y0 ..= y1`.
pub open spec fn changed_within(
    before: Seq<u32>,
    after: Seq<u32>,
    width: u32,
    value: u32,
    x0: int,
    x1: int,
    y0: int,
    y1: int,
) -> bool {
    &&& after.len() == before.len()
    &&& forall|k: int|
        0 <= k < after.len() ==> #[trigger] after[k] == before[k] || (after[k] == value && width
            > 0 && x0 <= k % (width as int) <= x1 && y0 <= k / (width as int) <= y1)
}

/// The buffer holds `(x, y)` and that pixel has the value `value`.
pub open spec fn painted_at(fb: &FrameBuffer, x: int, y: int, value: u32) -> bool {
    holds(fb, x, y) ==> fb.pixels@[y * fb.width + x] == value
}

/// The cell of index `y * width + x` is `(x, y)`, and no other index is.
pub proof fn lemma_cell_index(width: u32, k: int, x: int, y: int)
    requires
        0 <= x < width,
        0 <= y,
        0 <= k,
    ensures
        at_cell(width, k, x, y) <==> k == y * width + x,
{
    if k == y * width + x {
        lemma_fundamental_div_mod_converse(k, width as int, y, x);
    }
    if at_cell(width, k, x, y) {
        vstd::arithmetic::div_mod::lemma_fundamental_div_mod(k, width as int);
        assert(k == width * y + x);
        assert(width * y == y * width) by (nonlinear_arith);
    }
}

/// What drawing `cmd` on the buffer `before` guarantees of the buffer
/// `after`: a rectangle's cells inside the buffer take its color and nothing
/// else changes; a line or a circle changes pixels to its color only inside
/// its bounding box, and paints its ends, or the four ends of its axes.
pub open spec fn draws(before: &FrameBuffer, after: &FrameBuffer, cmd: DrawCommand) -> bool {
    &&& after.width == before.width
    &&& after.height == before.height
    &&& match cmd {
        DrawCommand::Rectangle(r) => after.pixels@ == paint_rect(
            before.pixels@,
            before.width,
            before.height,
            r,
        ),
        DrawCommand::Line(l) => {
            &&& changed_within(
                before.pixels@,
                after.pixels@,
                before.width,
                argb(l.color),
                vstd::math::min(l.x1 as int, l.x2 as int),
                vstd::math::max(l.x1 as int, l.x2 as int),
                vstd::math::min(l.y1 as int, l.y2 as int),
                vstd::math::max(l.y1 as int, l.y2 as int),
            )
            &&& painted_at(after, l.x1 as int, l.y1 as int, argb(l.color))
            &&& painted_at(after, l.x2 as int, l.y2 as int, argb(l.color))
        },
        DrawCommand::Circle(c) => {
            &&& changed_within(
                before.pixels@,
                after.pixels@,
                before.width,
                argb(c.color),
                c.x - c.radius,
                c.x + c.radius,
                c.y - c.radius,
                c.y + c.radius,
            )
            &&& painted_at(after, c.x + c.radius, c.y as int, argb(c.color))
            &&& painted_at(after, c.x - c.radius, c.y as int, argb(c.color))
            &&& painted_at(after, c.x as int, c.y + c.radius, argb(c.color))
            &&& painted_at(after, c.x as int, c.y - c.radius, argb(c.color))
        },
    }
}

/// The color that a command draws with.
pub open spec fn color_of(cmd: DrawCommand) -> Color {
    match cmd {
        DrawCommand::Rectangle(r) => r.color,
        DrawCommand::Line(l) => l.color,
        DrawCommand::Circle(c) => c.color,
    }
}

/// The pixel value is the color of one of the commands.
pub open spec fn some_command_color(value: u32, cmds: Seq<DrawCommand>) -> bool {
    exists|j: int| 0 <= j < cmds.len() && value == argb(color_of(#[trigger] cmds[j]))
}

/// Each pixel of `after` is the one of `before` or the color of one of the commands.
pub open spec fn only_command_colors(before: Seq<u32>, after: Seq<u32>, cmds: Seq<DrawCommand>) -> bool {
    &&& after.len() == before.len()
    &&& forall|k: int|
        0 <= k < after.len() ==> #[trigger] after[k] == before[k] || some_command_color(
            after[k],
            cmds,
        )
}

/// Every command of the list is a rectangle.
pub open spec fn all_rectangles(cmds: Seq<DrawCommand>) -> bool {
    forall|i: int| 0 <= i < cmds.len() ==> #[trigger] cmds[i] is Rectangle
}

/// The pixels after the rectangles of `cmds` are drawn in order, each over
/// the ones before it; other commands are passed over.
pub open spec fn paint_rects(pixels: Seq<u32>, width: u32, height: u32, cmds: Seq<DrawCommand>) -> Seq<
    u32,
>
    decreases cmds.len(),
{
    if cmds.len() == 0 {
        pixels
    } else {
        let below = paint_rects(pixels, width, height, cmds.drop_last());
        match cmds.last() {
            DrawCommand::Rectangle(r) => paint_rect(below, width, height, r),
            _ => below,
        }
    }
}

impl FrameBuffer {
    /// A `width` by `height` buffer with every pixel 0.
    pub fn new(width: u32, height: u32) -> (fb: FrameBuffer)
        requires
            width * height <= u32::MAX,
        ensures
            fb.width == width,
            fb.height == height,
            fb.pixels@ == Seq::new((width * height) as nat, |k: int| 0u32),
    {
        let n = (width * height) as usize;
        let mut pixels: Vec<u32> = Vec::new();
        while pixels.len() < n
            invariant
                pixels@.len() <= n,
                forall|k: int| 0 <= k < pixels@.len() ==> pixels@[k] == 0u32,
            decreases n - pixels@.len(),
        {
            pixels.push(0);
        }
        assert(pixels@ == Seq::new((width * height) as nat, |k: int| 0u32));
        FrameBuffer { pixels, width, height }
    }

    /// Sets pixel `(x, y)` to `color` when the buffer holds it.
    pub fn set_pixel(&mut self, x: u32, y: u32, color: &Color)
        ensures
            final(self).width == old(self).width,
            final(self).height == old(self).height,
            final(self).pixels@ == if holds(old(self), x as int, y as int) {
                old(self).pixels@.update(y * old(self).width + x, argb(*color))
            } else {
                old(self).pixels@
            },
    {
        if x < self.width && y < self.height {
            assert(y * self.width + x <= u64::MAX) by (nonlinear_arith)
                requires
                    x < self.width,
                    y < self.height,
                    self.width <= u32::MAX,
                    self.height <= u32::MAX,
            ;
            let index = y as u64 * self.width as u64 + x as u64;
            if index < self.pixels.len() as u64 {
                self.pixels.set(index as usize, color.to_argb());
            }
        }
    }

    /// Sets pixel `(x, y)` to `color` when the coordinates are not negative
    /// and the buffer holds the pixel.
    fn plot(&mut self, x: i64, y: i64, color: &Color)
        ensures
            final(self).width == old(self).width,
            final(self).height == old(self).height,
            final(self).pixels@ == if holds(old(self), x as int, y as int) {
                old(self).pixels@.update(y * old(self).width + x, argb(*color))
            } else {
                old(self).pixels@
            },
    {
        if 0 <= x && x <= u32::MAX as i64 && 0 <= y && y <= u32::MAX as i64 {
            self.set_pixel(x as u32, y as u32, color);
        }
    }

    /// Draws one command.
    pub fn draw(&mut self, command: &DrawCommand)
        ensures
            draws(old(self), final(self), *command),
    {
        match command {
            DrawCommand::Rectangle(rect) => self.draw_rectangle(rect),
            DrawCommand::Line(line) => self.draw_line(line),
            DrawCommand::Circle(circle) => self.draw_circle(circle),
        }
    }

    /// Draws the commands in order, each over the ones before it.
    pub fn draw_list(&mut self, commands: &Vec<DrawCommand>)
        ensures
            final(self).width == old(self).width,
            final(self).height == old(self).height,
            final(self).pixels@.len() == old(self).pixels@.len(),
            only_command_colors(old(self).pixels@, final(self).pixels@, commands@),
            all_rectangles(commands@) ==> final(self).pixels@ == paint_rects(
                old(self).pixels@,
                old(self).width,
                old(self).height,
                commands@,
            ),
    {
        let ghost before = self.pixels@;
        let mut i: usize = 0;
        while i < commands.len()
            invariant
                i <= commands@.len(),
                self.width == old(self).width,
                self.height == old(self).height,
                before == old(self).pixels@,
                self.pixels@.len() == before.len(),
                only_command_colors(before, self.pixels@, commands@.take(i as int)),
                all_rectangles(commands@.take(i as int)) ==> self.pixels@ == paint_rects(
                    before,
                    self.width,
                    self.height,
                    commands@.take(i as int),
                ),
            decreases commands@.len() - i,
        {
            let ghost prev = self.pixels@;
            self.draw(&commands[i]);
            proof {
                let cmds = commands@.take(i + 1);
                assert(cmds.drop_last() =~= commands@.take(i as int));
                assert(cmds.last() == commands@[i as int]);
                if all_rectangles(cmds) {
                    assert(cmds[i as int] is Rectangle);
                    assert(all_rectangles(commands@.take(i as int)));
                }
                let before_i = commands@.take(i as int);
                let cmd = commands@[i as int];
                assert(cmds[i as int] == cmd);
                assert forall|k: int| 0 <= k < self.pixels@.len() implies #[trigger] self.pixels@[k]
                    == before[k] || some_command_color(self.pixels@[k], cmds) by {
                    if self.pixels@[k] == prev[k] {
                        if prev[k] != before[k] {
                            let j = choose|j: int| 0 <= j < before_i.len() && prev[k] == argb(color_of(#[trigger] before_i[j]));
                            assert(cmds[j] == before_i[j]);
                        }
                    } else {
                        assert(self.pixels@[k] == argb(color_of(cmd)));
                        assert(self.pixels@[k] == argb(color_of(cmds[i as int])));
                    }
                }
            }
            i = i + 1;
        }
        proof {
            assert(commands@.take(commands@.len() as int) =~= commands@);
        }
    }

    /// Plots `(x, y)` inside the box `x0 ..= x1`, `y0 ..= y1`, keeping the
    /// buffer's pixels changed from `before` only to `argb(*color)` within it.
    fn plot_in_box(
        &mut self,
        x: i64,
        y: i64,
        color: &Color,
        Ghost(before): Ghost<Seq<u32>>,
        Ghost(x0): Ghost<int>,
        Ghost(x1): Ghost<int>,
        Ghost(y0): Ghost<int>,
        Ghost(y1): Ghost<int>,
    )
        requires
            changed_within(before, old(self).pixels@, old(self).width, argb(*color), x0, x1, y0, y1),
            x0 <= x <= x1,
            y0 <= y <= y1,
        ensures
            final(self).width == old(self).width,
            final(self).height == old(self).height,
            final(self).pixels@ == if holds(old(self), x as int, y as int) {
                old(self).pixels@.update(y * old(self).width + x, argb(*color))
            } else {
                old(self).pixels@
            },
            changed_within(before, final(self).pixels@, old(self).width, argb(*color), x0, x1, y0, y1),
    {
        let ghost prev = self.pixels@;
        self.plot(x, y, color);
        proof {
            let w = self.width;
            if holds(&*old(self), x as int, y as int) {
                assert forall|k: int| 0 <= k < self.pixels@.len() implies #[trigger] self.pixels@[k]
                    == before[k] || (self.pixels@[k] == argb(*color) && w > 0 && x0 <= k % (w as int)
                    <= x1 && y0 <= k / (w as int) <= y1) by {
                    lemma_cell_index(w, k, x as int, y as int);
                    if k != y * w + x {
                        assert(self.pixels@[k] == prev[k]);
                    }
                }
            }
        }
    }

    /// Draws a line with Bresenham's algorithm, both ends included.
    fn draw_line(&mut self, line: &Line)
        ensures
            final(self).width == old(self).width,
            final(self).height == old(self).height,
            changed_within(
                old(self).pixels@,
                final(self).pixels@,
                old(self).width,
                argb(line.color),
                vstd::math::min(line.x1 as int, line.x2 as int),
                vstd::math::max(line.x1 as int, line.x2 as int),
                vstd::math::min(line.y1 as int, line.y2 as int),
                vstd::math::max(line.y1 as int, line.y2 as int),
            ),
            painted_at(final(self), line.x1 as int, line.y1 as int, argb(line.color)),
            painted_at(final(self), line.x2 as int, line.y2 as int, argb(line.color)),
    {
        let ghost before = self.pixels@;
        let ghost v = argb(line.color);
        let xs = line.x1 as i64;
        let ys = line.y1 as i64;
        let xe = line.x2 as i64;
        let ye = line.y2 as i64;
        let ghost bx0 = vstd::math::min(xs as int, xe as int);
        let ghost bx1 = vstd::math::max(xs as int, xe as int);
        let ghost by0 = vstd::math::min(ys as int, ye as int);
        let ghost by1 = vstd::math::max(ys as int, ye as int);
        let mut x0 = xs;
        let mut y0 = ys;
        let dx: i64 = if xe >= xs { xe - xs } else { xs - xe };
        let sx: i64 = if xs < xe { 1 } else { -1 };
        let dy: i64 = if ye >= ys { ys - ye } else { ye - ys };
        let sy: i64 = if ys < ye { 1 } else { -1 };
        let mut err: i64 = dx + dy;
        // `i` and `j` count the steps taken along each axis; the error term is a
        // closed form of them, which shows that neither axis overshoots its end.
        let ghost mut i: int = 0;
        let ghost mut j: int = 0;
        proof {
            assert(dx * (1 + j) + dy * (1 + i) == dx + dy) by (nonlinear_arith)
                requires
                    i == 0,
                    j == 0,
            ;
        }
        loop
            invariant
                self.width == old(self).width,
                self.height == old(self).height,
                before == old(self).pixels@,
                v == argb(line.color),
                xs == line.x1 && ys == line.y1 && xe == line.x2 && ye == line.y2,
                bx0 == vstd::math::min(xs as int, xe as int),
                bx1 == vstd::math::max(xs as int, xe as int),
                by0 == vstd::math::min(ys as int, ye as int),
                by1 == vstd::math::max(ys as int, ye as int),
                dx == if xe >= xs { xe - xs } else { xs - xe },
                dy == if ye >= ys { ys - ye } else { ye - ys },
                sx == if xs < xe { 1i64 } else { -1i64 },
                sy == if ys < ye { 1i64 } else { -1i64 },
                0 <= i <= dx,
                0 <= j <= -dy,
                x0 == if xs < xe { xs + i } else { xs - i },
                y0 == if ys < ye { ys + j } else { ys - j },
                err == dx * (1 + j) + dy * (1 + i),
                3 * dy <= 2 * err <= 3 * dx,
                changed_within(before, self.pixels@, self.width, v, bx0, bx1, by0, by1),
                (i > 0 || j > 0) ==> painted_at(self, xs as int, ys as int, v),
            ensures
                self.width == old(self).width,
                self.height == old(self).height,
                changed_within(before, self.pixels@, self.width, v, bx0, bx1, by0, by1),
                painted_at(self, xs as int, ys as int, v),
                painted_at(self, xe as int, ye as int, v),
            decreases (dx - i) + (-dy - j),
        {
            self.plot_in_box(x0, y0, &line.color, Ghost(before), Ghost(bx0), Ghost(bx1), Ghost(by0), Ghost(by1));
            if x0 == xe && y0 == ye {
                break;
            }
            let e2 = 2 * err;
            proof {
                let ddy = -dy;
                if e2 >= dy && i == dx {
                    assert(j < ddy);
                    assert(dx * (1 + j) <= dx * ddy) by (nonlinear_arith)
                        requires
                            0 <= dx,
                            1 + j <= ddy,
                    ;
                    assert(dy * (1 + i) == -(ddy * (1 + dx))) by (nonlinear_arith)
                        requires
                            ddy == -dy,
                            i == dx,
                    ;
                    assert(ddy * (1 + dx) == ddy + ddy * dx) by (nonlinear_arith);
                    assert(dx * ddy == ddy * dx) by (nonlinear_arith);
                }
                if e2 <= dx && j == ddy {
                    assert(i < dx);
                    assert(ddy * (1 + i) <= ddy * dx) by (nonlinear_arith)
                        requires
                            0 <= ddy,
                            1 + i <= dx,
                    ;
                    assert(dy * (1 + i) == -(ddy * (1 + i))) by (nonlinear_arith)
                        requires
                            ddy == -dy,
                    ;
                    assert(dx * (1 + j) == dx + dx * ddy) by (nonlinear_arith)
                        requires
                            j == ddy,
                    ;
                    assert(dx * ddy == ddy * dx) by (nonlinear_arith);
                }
                assert(dy * (1 + (i + 1)) == dy * (1 + i) + dy) by (nonlinear_arith);
                assert(dx * (1 + (j + 1)) == dx * (1 + j) + dx) by (nonlinear_arith);
            }
            if e2 >= dy {
                err = err + dy;
                x0 = x0 + sx;
                proof {
                    i = i + 1;
                }
            }
            if e2 <= dx {
                err = err + dx;
                y0 = y0 + sy;
                proof {
                    j = j + 1;
                }
            }
        }
    }

    /// Draws the outline of a circle with the midpoint algorithm.
    fn draw_circle(&mut self, circle: &Circle)
        ensures
            final(self).width == old(self).width,
            final(self).height == old(self).height,
            changed_within(
                old(self).pixels@,
                final(self).pixels@,
                old(self).width,
                argb(circle.color),
                circle.x - circle.radius,
                circle.x + circle.radius,
                circle.y - circle.radius,
                circle.y + circle.radius,
            ),
            painted_at(final(self), circle.x + circle.radius, circle.y as int, argb(circle.color)),
            painted_at(final(self), circle.x - circle.radius, circle.y as int, argb(circle.color)),
            painted_at(final(self), circle.x as int, circle.y + circle.radius, argb(circle.color)),
            painted_at(final(self), circle.x as int, circle.y - circle.radius, argb(circle.color)),
    {
        let ghost before = self.pixels@;
        let ghost v = argb(circle.color);
        let x_center = circle.x as i64;
        let y_center = circle.y as i64;
        let r = circle.radius as i64;
        let ghost bx0 = x_center - r;
        let ghost bx1 = x_center + r;
        let ghost by0 = y_center - r;
        let ghost by1 = y_center + r;
        let mut x: i64 = r;
        let mut y: i64 = 0;
        let mut err: i64 = 0;
        while x >= y
            invariant
                self.width == old(self).width,
                self.height == old(self).height,
                before == old(self).pixels@,
                v == argb(circle.color),
                x_center == circle.x && y_center == circle.y && r == circle.radius,
                bx0 == x_center - r && bx1 == x_center + r,
                by0 == y_center - r && by1 == y_center + r,
                -1 <= x <= r,
                0 <= y <= r + 1,
                y <= x + 2,
                x >= y ==> -2 * x - 1 <= err <= 2 * y + 1,
                changed_within(before, self.pixels@, self.width, v, bx0, bx1, by0, by1),
                (x < r || y > 0) ==> {
                    &&& painted_at(self, x_center + r, y_center as int, v)
                    &&& painted_at(self, x_center - r, y_center as int, v)
                    &&& painted_at(self, x_center as int, y_center + r, v)
                    &&& painted_at(self, x_center as int, y_center - r, v)
                },
            decreases x + 2 - y,
        {
            let c = &circle.color;
            self.plot_in_box(x_center + x, y_center + y, c, Ghost(before), Ghost(bx0), Ghost(bx1), Ghost(by0), Ghost(by1));
            self.plot_in_box(x_center + y, y_center + x, c, Ghost(before), Ghost(bx0), Ghost(bx1), Ghost(by0), Ghost(by1));
            self.plot_in_box(x_center - y, y_center + x, c, Ghost(before), Ghost(bx0), Ghost(bx1), Ghost(by0), Ghost(by1));
            self.plot_in_box(x_center - x, y_center + y, c, Ghost(before), Ghost(bx0), Ghost(bx1), Ghost(by0), Ghost(by1));
            self.plot_in_box(x_center - x, y_center - y, c, Ghost(before), Ghost(bx0), Ghost(bx1), Ghost(by0), Ghost(by1));
            self.plot_in_box(x_center - y, y_center - x, c, Ghost(before), Ghost(bx0), Ghost(bx1), Ghost(by0), Ghost(by1));
            self.plot_in_box(x_center + y, y_center - x, c, Ghost(before), Ghost(bx0), Ghost(bx1), Ghost(by0), Ghost(by1));
            self.plot_in_box(x_center + x, y_center - y, c, Ghost(before), Ghost(bx0), Ghost(bx1), Ghost(by0), Ghost(by1));
            if err <= 0 {
                y = y + 1;
                err = err + 2 * y + 1;
            }
            if err > 0 {
                x = x - 1;
                err = err - (2 * x + 1);
            }
        }
    }

    /// Fills a rectangle; its cells outside the buffer are left out.
    fn draw_rectangle(&mut self, rect: &Rectangle)
        ensures
            final(self).width == old(self).width,
            final(self).height == old(self).height,
            final(self).pixels@ == paint_rect(old(self).pixels@, old(self).width, old(self).height, *rect),
    {
        let ghost before = self.pixels@;
        let value = rect.color.to_argb();
        let x_end: u64 = if rect.x as u64 + rect.width as u64 <= self.width as u64 {
            rect.x as u64 + rect.width as u64
        } else {
            self.width as u64
        };
        let y_end: u64 = if rect.y as u64 + rect.height as u64 <= self.height as u64 {
            rect.y as u64 + rect.height as u64
        } else {
            self.height as u64
        };
        let mut y: u64 = rect.y as u64;
        while y < y_end
            invariant
                self.width == old(self).width,
                self.height == old(self).height,
                before == old(self).pixels@,
                value == argb(rect.color),
                x_end <= self.width,
                y_end <= self.height,
                rect.y <= y,
                y <= y_end || y == rect.y,
                self.pixels@ == paint_region(before, self.width, rect.x as int, x_end as int, rect.y as int, y as int, value),
            decreases y_end - y,
        {
            let mut x: u64 = rect.x as u64;
            let ghost rows = self.pixels@;
            while x < x_end
                invariant
                    self.width == old(self).width,
                    self.height == old(self).height,
                    x_end <= self.width,
                    y < y_end <= self.height,
                    rect.x <= x,
                    x <= x_end || x == rect.x,
                    rows.len() == before.len(),
                    value == argb(rect.color),
                    self.pixels@ == paint_region(rows, self.width, rect.x as int, x as int, y as int, y + 1, value),
                decreases x_end - x,
            {
                let ghost prev = self.pixels@;
                self.set_pixel(x as u32, y as u32, &rect.color);
                proof {
                    let w = self.width;
                    assert forall|k: int| 0 <= k < prev.len() implies #[trigger] self.pixels@[k] == paint_region(rows, w, rect.x as int, x + 1, y as int, y + 1, value)[k] by {
                        lemma_cell_index(w, k, x as int, y as int);
                        if k != y * w + x {
                            assert(self.pixels@[k] == prev[k]);
                        }
                    }
                    assert(self.pixels@ =~= paint_region(rows, w, rect.x as int, x + 1, y as int, y + 1, value));
                }
                x = x + 1;
            }
            proof {
                let w = self.width;
                assert(self.pixels@ =~= paint_region(before, w, rect.x as int, x_end as int, rect.y as int, y + 1, value));
            }
            y = y + 1;
        }
        proof {
            let w = self.width;
            assert(self.pixels@ =~= paint_rect(before, w, self.height, *rect));
        }
    }
}

} // verus!
