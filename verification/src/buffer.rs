//! Raster primitives over a flat, row-major RGBA byte buffer.
//!
//! Every primitive takes the buffer and its dimensions explicitly and clips:
//! a pixel whose four bytes do not lie inside the buffer is skipped.

use crate::color::Color;
use crate::geometry::{
    circle_points, circle_walk, next_decision, next_height, octant_points, lemma_line_error_step, lemma_line_step, line_error, line_offsets, line_points, next_i, next_j,
    span, toward,
};
use crate::types::{LineParams, OverlayError};
use vstd::arithmetic::div_mod::{lemma_fundamental_div_mod, lemma_fundamental_div_mod_converse};
use vstd::prelude::*;
use vstd::slice::slice_to_vec;

verus! {

/// Number of bytes in a `width` by `height` RGBA frame.
pub open spec fn frame_len(width: int, height: int) -> int {
    width * height * 4
}

/// Byte offset of pixel `(x, y)` in a buffer with `width` pixels per row.
pub open spec fn pixel_index(x: int, y: int, width: int) -> int {
    (y * width + x) * 4
}

/// Whether the four bytes that start at `index` lie inside `len` bytes.
pub open spec fn pixel_fits(index: int, len: int) -> bool {
    0 <= index && index + 3 < len
}

/// `buf` with the four bytes at `index` replaced by the channels of `color`.
pub open spec fn with_pixel(buf: Seq<u8>, index: int, color: Color) -> Seq<u8>
    recommends
        pixel_fits(index, buf.len() as int),
{
    buf.update(index, color.r).update(index + 1, color.g).update(index + 2, color.b).update(
        index + 3,
        color.a,
    )
}

/// `buf` after a clipped write of `color` at `(x, y)`: the pixel is written
/// when it lies in `width` by `height` and its bytes fit; else nothing changes.
pub open spec fn plot(buf: Seq<u8>, x: int, y: int, width: int, height: int, color: Color) -> Seq<
    u8,
> {
    if 0 <= x < width && 0 <= y < height && pixel_fits(pixel_index(x, y, width), buf.len() as int) {
        with_pixel(buf, pixel_index(x, y, width), color)
    } else {
        buf
    }
}

/// `buf` after clipped writes at each of `points`, first to last.
pub open spec fn plot_all(
    buf: Seq<u8>,
    points: Seq<(int, int)>,
    width: int,
    height: int,
    color: Color,
) -> Seq<u8>
    decreases points.len(),
{
    if points.len() == 0 {
        buf
    } else {
        plot(
            plot_all(buf, points.drop_last(), width, height, color),
            points.last().0,
            points.last().1,
            width,
            height,
            color,
        )
    }
}

/// A buffer of `len` bytes in which every complete pixel is `color` and the
/// bytes of a trailing partial pixel are those of `rest`.
pub open spec fn painted(len: nat, color: Color, rest: Seq<u8>) -> Seq<u8> {
    Seq::new(
        len,
        |i: int|
            if i < len - len % 4 {
                color.channel(i % 4)
            } else {
                rest[i]
            },
    )
}

/// Size in bytes of a `width` by `height` RGBA buffer.
#[inline]
pub fn calculate_buffer_size(width: u32, height: u32) -> (size: usize)
    requires
        frame_len(width as int, height as int) <= usize::MAX,
    ensures
        size == frame_len(width as int, height as int),
{
    assert(width * height <= usize::MAX) by (nonlinear_arith)
        requires
            width * height * 4 <= usize::MAX,
            width >= 0,
            height >= 0,
    ;
    (width as usize) * (height as usize) * 4
}

/// Size in bytes of a `width` by `height` RGBA buffer, or `None` when that
/// size does not fit in `usize`.
pub fn checked_buffer_size(width: u32, height: u32) -> (size: Option<usize>)
    ensures
        size is Some <==> frame_len(width as int, height as int) <= usize::MAX,
        size is Some ==> size.unwrap() == frame_len(width as int, height as int),
{
    assert(width * height <= 0xffff_ffff * 0xffff_ffff) by (nonlinear_arith)
        requires
            0 <= width <= 0xffff_ffff,
            0 <= height <= 0xffff_ffff,
    ;
    let pixels: u64 = (width as u64) * (height as u64);
    if pixels <= (usize::MAX as u64) / 4 {
        Some((pixels as usize) * 4)
    } else {
        None
    }
}

/// Byte offset of pixel `(x, y)` when its four bytes lie inside `len` bytes.
fn pixel_slot(x: u32, y: u32, width: u32, len: usize) -> (slot: Option<usize>)
    ensures
        slot is Some <==> pixel_fits(pixel_index(x as int, y as int, width as int), len as int),
        slot is Some ==> slot.unwrap() == pixel_index(x as int, y as int, width as int),
{
    assert(y * width <= 0xffff_ffff * 0xffff_ffff) by (nonlinear_arith)
        requires
            0 <= y <= 0xffff_ffff,
            0 <= width <= 0xffff_ffff,
    ;
    let pixel: u64 = (y as u64) * (width as u64) + (x as u64);
    if pixel < (len / 4) as u64 {
        Some((pixel as usize) * 4)
    } else {
        None
    }
}

/// Writes the channels of `color` at `index`.
fn store_pixel(buffer: &mut [u8], index: usize, color: &Color)
    requires
        pixel_fits(index as int, old(buffer)@.len() as int),
    ensures
        final(buffer)@ == with_pixel(old(buffer)@, index as int, *color),
{
    buffer[index] = color.r;
    buffer[index + 1] = color.g;
    buffer[index + 2] = color.b;
    buffer[index + 3] = color.a;
}

/// Clipped write of one pixel.
fn plot_pixel(buffer: &mut [u8], x: i64, y: i64, width: u32, height: u32, color: &Color)
    ensures
        final(buffer)@ == plot(old(buffer)@, x as int, y as int, width as int, height as int, *color),
{
    if x >= 0 && y >= 0 && x < width as i64 && y < height as i64 {
        match pixel_slot(x as u32, y as u32, width, buffer.len()) {
            Some(index) => store_pixel(buffer, index, color),
            None => {},
        }
    }
}

/// A new buffer as long as `buffer` in which every complete pixel is
/// `(r, g, b, a)`; the bytes of a trailing partial pixel are zero.
pub fn fill_buffer_rgba_optimized(buffer: &[u8], r: u8, g: u8, b: u8, a: u8) -> (filled: Vec<u8>)
    ensures
        filled@ == painted(buffer@.len(), Color { r, g, b, a }, Seq::new(buffer@.len(), |i: int| 0u8)),
{
    let len = buffer.len();
    let mut new_data = vec![0u8; len];
    let color = Color { r, g, b, a };
    let ghost zeros = Seq::new(len as nat, |i: int| 0u8);
    assert(new_data@ =~= zeros);
    clear_buffer_optimized(new_data.as_mut_slice(), 0, 0, &color);
    new_data
}

/// Sets every complete pixel of `frame` to `color`; the bytes of a trailing
/// partial pixel keep their values.
pub fn clear_buffer_optimized(frame: &mut [u8], _width: u32, _height: u32, color: &Color)
    ensures
        final(frame)@ == painted(old(frame)@.len(), *color, old(frame)@),
{
    let len = frame.len();
    let whole = len - len % 4;
    let mut index: usize = 0;
    while index < whole
        invariant
            index <= whole,
            index % 4 == 0,
            whole == len - len % 4,
            frame@.len() == len,
            len == old(frame)@.len(),
            forall|i: int| 0 <= i < index ==> frame@[i] == color.channel(i % 4),
            forall|i: int| index <= i < len ==> frame@[i] == old(frame)@[i],
        decreases whole - index,
    {
        store_pixel(frame, index, color);
        index = index + 4;
    }
    assert(frame@ =~= painted(old(frame)@.len(), *color, old(frame)@));
}

/// Writes `color` at `(x, y)` of a buffer with `width` pixels per row, or
/// reports that the pixel does not fit and leaves the buffer as it was.
#[inline]
pub fn draw_pixel_safe(buffer: &mut [u8], x: u32, y: u32, width: u32, color: &Color) -> (result:
    Result<(), String>)
    ensures
        pixel_fits(pixel_index(x as int, y as int, width as int), old(buffer)@.len() as int) ==> {
            &&& result is Ok
            &&& final(buffer)@ == with_pixel(
                old(buffer)@,
                pixel_index(x as int, y as int, width as int),
                *color,
            )
        },
        !pixel_fits(pixel_index(x as int, y as int, width as int), old(buffer)@.len() as int) ==> {
            &&& result matches Err(message)
            &&& message@ == out_of_bounds_text()
            &&& final(buffer)@ == old(buffer)@
        },
{
    match pixel_slot(x, y, width, buffer.len()) {
        Some(index) => {
            store_pixel(buffer, index, color);
            Ok(())
        },
        None => Err("Pixel position out of bounds".to_string()),
    }
}

/// Draws the line from `(x1, y1)` to `(x2, y2)` of `params` in `color`,
/// clipped to `buffer_width` by `buffer_height` and to the buffer.
pub fn draw_line_optimized(buffer: &mut [u8], params: LineParams, color: &Color)
    ensures
        final(buffer)@ == plot_all(
            old(buffer)@,
            line_points(params.x1 as int, params.y1 as int, params.x2 as int, params.y2 as int),
            params.buffer_width as int,
            params.buffer_height as int,
            *color,
        ),
{
    let width = params.buffer_width;
    let height = params.buffer_height;
    let x_start: i64 = params.x1 as i64;
    let y_start: i64 = params.y1 as i64;
    let x_end: i64 = params.x2 as i64;
    let y_end: i64 = params.y2 as i64;
    let mut x0: i64 = x_start;
    let mut y0: i64 = y_start;
    let dx: i64 = if x0 < x_end {
        x_end - x0
    } else {
        x0 - x_end
    };
    let dy: i64 = if y0 < y_end {
        y_end - y0
    } else {
        y0 - y_end
    };
    let sx: i64 = if x0 < x_end {
        1
    } else {
        -1
    };
    let sy: i64 = if y0 < y_end {
        1
    } else {
        -1
    };
    let mut error: i64 = dx - dy;
    let ghost mut i: int = 0;
    let ghost mut j: int = 0;
    let ghost mut done: Seq<(int, int)> = Seq::empty();
    let ghost place = |o: (int, int)|
        (toward(x_start as int, x_end as int, o.0), toward(y_start as int, y_end as int, o.1));
    proof {
        lemma_line_error_step(0, 0, dx as int, dy as int);
        assert(done + line_offsets(0, 0, dx as int, dy as int) =~= line_offsets(
            0,
            0,
            dx as int,
            dy as int,
        ));
        assert(done.map_values(place) =~= Seq::<(int, int)>::empty());
    }
    loop
        invariant_except_break
            0 <= i <= dx,
            0 <= j <= dy,
            done + line_offsets(i, j, dx as int, dy as int) == line_offsets(
                0,
                0,
                dx as int,
                dy as int,
            ),
            buffer@ == plot_all(
                old(buffer)@,
                done.map_values(place),
                width as int,
                height as int,
                *color,
            ),
        invariant
            0 <= x_start <= 0xffff_ffff,
            0 <= y_start <= 0xffff_ffff,
            0 <= x_end <= 0xffff_ffff,
            0 <= y_end <= 0xffff_ffff,
            dx == span(x_start as int, x_end as int),
            dy == span(y_start as int, y_end as int),
            sx == (if x_start < x_end {
                1i64
            } else {
                -1i64
            }),
            sy == (if y_start < y_end {
                1i64
            } else {
                -1i64
            }),
            x0 == toward(x_start as int, x_end as int, i),
            y0 == toward(y_start as int, y_end as int, j),
            error == line_error(i, j, dx as int, dy as int),
            2 * error <= 3 * dx,
            2 * error >= -3 * dy,
            place == (|o: (int, int)|
                (
                    toward(x_start as int, x_end as int, o.0),
                    toward(y_start as int, y_end as int, o.1),
                )),
        ensures
            buffer@ == plot_all(
                old(buffer)@,
                line_offsets(0, 0, dx as int, dy as int).map_values(place),
                width as int,
                height as int,
                *color,
            ),
        decreases (dx - i) + (dy - j),
    {
        plot_pixel(buffer, x0, y0, width, height, color);
        proof {
            let here = (i, j);
            let grown = done.push(here);
            assert(grown.map_values(place).drop_last() =~= done.map_values(place));
            assert(grown.map_values(place).last() == (x0 as int, y0 as int));
            assert(buffer@ == plot_all(
                old(buffer)@,
                grown.map_values(place),
                width as int,
                height as int,
                *color,
            ));
            if i == dx && j == dy {
                assert(grown =~= done + line_offsets(i, j, dx as int, dy as int));
            } else {
                lemma_line_step(i, j, dx as int, dy as int);
                lemma_line_error_step(i, j, dx as int, dy as int);
                assert(grown + line_offsets(
                    next_i(i, j, dx as int, dy as int),
                    next_j(i, j, dx as int, dy as int),
                    dx as int,
                    dy as int,
                ) =~= done + line_offsets(i, j, dx as int, dy as int));
            }
            done = grown;
        }
        if x0 == x_end && y0 == y_end {
            break ;
        }
        let e2: i64 = 2 * error;
        if e2 >= -dy {
            error = error - dy;
            x0 = x0 + sx;
        }
        if e2 <= dx {
            error = error + dx;
            y0 = y0 + sy;
        }
        proof {
            let ni = next_i(i, j, dx as int, dy as int);
            let nj = next_j(i, j, dx as int, dy as int);
            i = ni;
            j = nj;
        }
    }
}

/// Draws the circle of `radius` about `(cx, cy)` in `color`, clipped to
/// `buffer_width` by `buffer_height` and to the buffer.
pub fn draw_circle_optimized(
    buffer: &mut [u8],
    cx: u32,
    cy: u32,
    radius: u32,
    buffer_width: u32,
    buffer_height: u32,
    color: &Color,
)
    ensures
        final(buffer)@ == plot_all(
            old(buffer)@,
            circle_points(cx as int, cy as int, radius as int),
            buffer_width as int,
            buffer_height as int,
            *color,
        ),
{
    let r: i64 = radius as i64;
    let cx_i: i64 = cx as i64;
    let cy_i: i64 = cy as i64;
    let mut x: i64 = 0;
    let mut y: i64 = r;
    let mut d: i64 = 3 - 2 * r;
    let ghost mut done: Seq<(int, int)> = Seq::empty();
    proof {
        assert(done + circle_walk(cx as int, cy as int, 0, r as int, d as int) =~= circle_points(
            cx as int,
            cy as int,
            radius as int,
        ));
    }
    while y >= x
        invariant
            0 <= r <= 0xffff_ffff,
            cx_i == cx,
            cy_i == cy,
            0 <= x <= y + 2,
            -1 <= y <= r,
            -4 * r <= d <= 4 * r + 10 + 18 * x,
            done + circle_walk(cx as int, cy as int, x as int, y as int, d as int)
                == circle_points(cx as int, cy as int, radius as int),
            buffer@ == plot_all(
                old(buffer)@,
                done,
                buffer_width as int,
                buffer_height as int,
                *color,
            ),
        decreases y - x + 2,
    {
        let ghost before = buffer@;
        let ghost ring = octant_points(cx as int, cy as int, x as int, y as int);
        plot_pixel(buffer, cx_i + x, cy_i + y, buffer_width, buffer_height, color);
        plot_pixel(buffer, cx_i - x, cy_i + y, buffer_width, buffer_height, color);
        plot_pixel(buffer, cx_i + x, cy_i - y, buffer_width, buffer_height, color);
        plot_pixel(buffer, cx_i - x, cy_i - y, buffer_width, buffer_height, color);
        plot_pixel(buffer, cx_i + y, cy_i + x, buffer_width, buffer_height, color);
        plot_pixel(buffer, cx_i - y, cy_i + x, buffer_width, buffer_height, color);
        plot_pixel(buffer, cx_i + y, cy_i - x, buffer_width, buffer_height, color);
        plot_pixel(buffer, cx_i - y, cy_i - x, buffer_width, buffer_height, color);
        proof {
            lemma_plot_all_append(
                old(buffer)@,
                done,
                ring,
                buffer_width as int,
                buffer_height as int,
                *color,
            );
            lemma_plot_all_eight(before, ring, buffer_width as int, buffer_height as int, *color);
            assert((done + ring) + circle_walk(
                cx as int,
                cy as int,
                x + 1,
                next_height(y as int, d as int),
                next_decision(x as int, y as int, d as int),
            ) =~= done + circle_walk(cx as int, cy as int, x as int, y as int, d as int));
            done = done + ring;
        }
        x = x + 1;
        if d > 0 {
            y = y - 1;
            d = d + 4 * (x - y) + 10;
        } else {
            d = d + 4 * x + 6;
        }
    }
    proof {
        assert(circle_walk(cx as int, cy as int, x as int, y as int, d as int) =~= Seq::<
            (int, int),
        >::empty());
        assert(done + Seq::<(int, int)>::empty() =~= done);
    }
}

/// Plotting changes no length.
pub proof fn lemma_plot_all_len(
    buf: Seq<u8>,
    points: Seq<(int, int)>,
    width: int,
    height: int,
    color: Color,
)
    ensures
        plot_all(buf, points, width, height, color).len() == buf.len(),
    decreases points.len(),
{
    if points.len() > 0 {
        lemma_plot_all_len(buf, points.drop_last(), width, height, color);
    }
}

/// Plotting a concatenation is plotting its parts in turn.
pub proof fn lemma_plot_all_append(
    buf: Seq<u8>,
    first: Seq<(int, int)>,
    second: Seq<(int, int)>,
    width: int,
    height: int,
    color: Color,
)
    ensures
        plot_all(buf, first + second, width, height, color) == plot_all(
            plot_all(buf, first, width, height, color),
            second,
            width,
            height,
            color,
        ),
    decreases second.len(),
{
    if second.len() == 0 {
        assert(first + second =~= first);
    } else {
        lemma_plot_all_append(buf, first, second.drop_last(), width, height, color);
        assert((first + second).drop_last() =~= first + second.drop_last());
        assert((first + second).last() == second.last());
    }
}

/// Plotting eight points is eight clipped writes.
proof fn lemma_plot_all_eight(
    buf: Seq<u8>,
    points: Seq<(int, int)>,
    width: int,
    height: int,
    color: Color,
)
    requires
        points.len() == 8,
    ensures
        plot_all(buf, points, width, height, color) == plot(
            plot(
                plot(
                    plot(
                        plot(
                            plot(
                                plot(
                                    plot(buf, points[0].0, points[0].1, width, height, color),
                                    points[1].0,
                                    points[1].1,
                                    width,
                                    height,
                                    color,
                                ),
                                points[2].0,
                                points[2].1,
                                width,
                                height,
                                color,
                            ),
                            points[3].0,
                            points[3].1,
                            width,
                            height,
                            color,
                        ),
                        points[4].0,
                        points[4].1,
                        width,
                        height,
                        color,
                    ),
                    points[5].0,
                    points[5].1,
                    width,
                    height,
                    color,
                ),
                points[6].0,
                points[6].1,
                width,
                height,
                color,
            ),
            points[7].0,
            points[7].1,
            width,
            height,
            color,
        ),
{
    let take1 = points.subrange(0, 1);
    let take2 = points.subrange(0, 2);
    let take3 = points.subrange(0, 3);
    let take4 = points.subrange(0, 4);
    let take5 = points.subrange(0, 5);
    let take6 = points.subrange(0, 6);
    let take7 = points.subrange(0, 7);
    assert(points.drop_last() =~= take7);
    assert(take7.drop_last() =~= take6);
    assert(take6.drop_last() =~= take5);
    assert(take5.drop_last() =~= take4);
    assert(take4.drop_last() =~= take3);
    assert(take3.drop_last() =~= take2);
    assert(take2.drop_last() =~= take1);
    assert(take1.drop_last() =~= Seq::<(int, int)>::empty());
    assert(plot_all(buf, take1.drop_last(), width, height, color) == buf);
    assert(plot_all(buf, take1, width, height, color) == plot(
        buf,
        points[0].0,
        points[0].1,
        width,
        height,
        color,
    ));
    assert(plot_all(buf, take2, width, height, color) == plot(
        plot_all(buf, take1, width, height, color),
        points[1].0,
        points[1].1,
        width,
        height,
        color,
    ));
    assert(plot_all(buf, take3, width, height, color) == plot(
        plot_all(buf, take2, width, height, color),
        points[2].0,
        points[2].1,
        width,
        height,
        color,
    ));
    assert(plot_all(buf, take4, width, height, color) == plot(
        plot_all(buf, take3, width, height, color),
        points[3].0,
        points[3].1,
        width,
        height,
        color,
    ));
    assert(plot_all(buf, take5, width, height, color) == plot(
        plot_all(buf, take4, width, height, color),
        points[4].0,
        points[4].1,
        width,
        height,
        color,
    ));
    assert(plot_all(buf, take6, width, height, color) == plot(
        plot_all(buf, take5, width, height, color),
        points[5].0,
        points[5].1,
        width,
        height,
        color,
    ));
    assert(plot_all(buf, take7, width, height, color) == plot(
        plot_all(buf, take6, width, height, color),
        points[6].0,
        points[6].1,
        width,
        height,
        color,
    ));
}

/// The smaller of `v` and `bound`.
pub open spec fn clip(v: int, bound: int) -> int {
    if v < bound {
        v
    } else {
        bound
    }
}

/// Position, extent and target dimensions of a rectangle.
#[derive(Debug, Clone, Copy, PartialEq, Eq, Structural)]
pub struct RectangleParams {
    pub x: u32,
    pub y: u32,
    pub width: u32,
    pub height: u32,
    pub frame_width: usize,
    pub frame_height: usize,
}

impl RectangleParams {
    /// First column drawn: `x`, clamped to the frame width.
    pub open spec fn left(self) -> int {
        clip(self.x as int, self.frame_width as int)
    }

    /// Column after the last one drawn: `x + width`, saturating at the
    /// largest `u32` and clamped to the frame width.
    pub open spec fn right(self) -> int {
        clip(clip(self.x + self.width, u32::MAX as int), self.frame_width as int)
    }

    /// First row drawn: `y`, clamped to the frame height.
    pub open spec fn top(self) -> int {
        clip(self.y as int, self.frame_height as int)
    }

    /// Row after the last one drawn: `y + height`, saturating at the largest
    /// `u32` and clamped to the frame height.
    pub open spec fn bottom(self) -> int {
        clip(clip(self.y + self.height, u32::MAX as int), self.frame_height as int)
    }

    /// Whether the pixel in `column` and `row` lies in the clamped rectangle.
    pub open spec fn covers(self, column: int, row: int) -> bool {
        self.left() <= column < self.right() && self.top() <= row < self.bottom()
    }

    /// Whether byte `i` of a buffer of `len` bytes belongs to a pixel that the
    /// rectangle paints.
    pub open spec fn paints(self, i: int, len: int) -> bool {
        &&& self.frame_width > 0
        &&& pixel_fits((i / 4) * 4, len)
        &&& self.covers((i / 4) % (self.frame_width as int), (i / 4) / (self.frame_width as int))
    }
}

/// `buf` after the rectangle `params` was painted in `color`.
pub open spec fn rectangle_painted(buf: Seq<u8>, params: RectangleParams, color: Color) -> Seq<u8> {
    Seq::new(
        buf.len(),
        |i: int|
            if params.paints(i, buf.len() as int) {
                color.channel(i % 4)
            } else {
                buf[i]
            },
    )
}

/// Whether byte `i` belongs to a pixel painted so far, when the rows before
/// `row` are complete and `row` is painted up to `column`.
spec fn painted_before(params: RectangleParams, i: int, len: int, row: int, column: int) -> bool {
    let c = (i / 4) % (params.frame_width as int);
    let r = (i / 4) / (params.frame_width as int);
    &&& params.paints(i, len)
    &&& (r < row || (r == row && c < column))
}

/// Row and column of the pixel at `row * width + column`.
proof fn lemma_pixel_coordinates(column: int, row: int, width: int)
    requires
        0 <= column < width,
        0 <= row,
    ensures
        (row * width + column) / width == row,
        (row * width + column) % width == column,
{
    lemma_fundamental_div_mod_converse(row * width + column, width, row, column);
}

/// A pixel is determined by its row and column.
proof fn lemma_pixel_of_coordinates(pixel: int, width: int)
    requires
        0 < width,
    ensures
        pixel == (pixel / width) * width + pixel % width,
{
    lemma_fundamental_div_mod(pixel, width);
    assert(width * (pixel / width) == (pixel / width) * width) by (nonlinear_arith);
}

/// Paints the rectangle `params` into `frame`: its bounds are clamped to the
/// frame dimensions, and a pixel whose bytes do not fit the buffer is skipped.
pub fn draw_rectangle_optimized(frame: &mut [u8], params: RectangleParams, color: &Color)
    ensures
        final(frame)@ == rectangle_painted(old(frame)@, params, *color),
{
    let len = frame.len();
    let frame_width = params.frame_width;
    let frame_height = params.frame_height;
    if frame_width == 0 {
        assert(frame@ =~= rectangle_painted(old(frame)@, params, *color));
        return ;
    }
    let limit: u128 = (len / 4) as u128;
    let x_far: u64 = params.x as u64 + params.width as u64;
    let y_far: u64 = params.y as u64 + params.height as u64;
    let x_stop: usize = if x_far > u32::MAX as u64 {
        u32::MAX as usize
    } else {
        x_far as usize
    };
    let y_stop: usize = if y_far > u32::MAX as u64 {
        u32::MAX as usize
    } else {
        y_far as usize
    };
    let start_x: usize = if (params.x as usize) < frame_width {
        params.x as usize
    } else {
        frame_width
    };
    let start_y: usize = if (params.y as usize) < frame_height {
        params.y as usize
    } else {
        frame_height
    };
    let end_x: usize = if x_stop < frame_width {
        x_stop
    } else {
        frame_width
    };
    let end_y: usize = if y_stop < frame_height {
        y_stop
    } else {
        frame_height
    };
    let mut py: usize = start_y;
    while py < end_y
        invariant
            frame_width == params.frame_width,
            frame_width > 0,
            len == old(frame)@.len(),
            frame@.len() == len,
            limit == len / 4,
            start_x == params.left(),
            end_x == params.right(),
            start_y == params.top(),
            end_y == params.bottom(),
            start_x <= end_x <= u32::MAX,
            start_y <= py <= end_y <= u32::MAX,
            forall|i: int|
                0 <= i < len ==> frame@[i] == (if painted_before(
                    params,
                    i,
                    len as int,
                    py as int,
                    start_x as int,
                ) {
                    color.channel(i % 4)
                } else {
                    old(frame)@[i]
                }),
        decreases end_y - py,
    {
        let mut px: usize = start_x;
        while px < end_x
            invariant
                frame_width == params.frame_width,
                frame_width > 0,
                len == old(frame)@.len(),
                frame@.len() == len,
                limit == len / 4,
                start_x == params.left(),
                end_x == params.right(),
                start_y == params.top(),
                end_y == params.bottom(),
                end_x <= u32::MAX,
                end_x <= frame_width,
                start_x <= px <= end_x,
                start_y <= py < end_y <= u32::MAX,
                forall|i: int|
                    0 <= i < len ==> frame@[i] == (if painted_before(
                        params,
                        i,
                        len as int,
                        py as int,
                        px as int,
                    ) {
                        color.channel(i % 4)
                    } else {
                        old(frame)@[i]
                    }),
            decreases end_x - px,
        {
            assert(py * frame_width <= 0xffff_ffff * 0xffff_ffff_ffff_ffff) by (nonlinear_arith)
                requires
                    0 <= py <= 0xffff_ffff,
                    0 <= frame_width <= 0xffff_ffff_ffff_ffff,
            ;
            let pixel: u128 = (py as u128) * (frame_width as u128) + (px as u128);
            let ghost before = frame@;
            proof {
                lemma_pixel_coordinates(px as int, py as int, frame_width as int);
            }
            if pixel < limit {
                let index: usize = (pixel as usize) * 4;
                store_pixel(frame, index, color);
            }
            proof {
                assert forall|i: int| 0 <= i < len implies frame@[i] == (if painted_before(
                    params,
                    i,
                    len as int,
                    py as int,
                    px as int + 1,
                ) {
                    color.channel(i % 4)
                } else {
                    old(frame)@[i]
                }) by {
                    lemma_pixel_of_coordinates(i / 4, frame_width as int);
                    if i / 4 == pixel {
                    } else {
                        assert(before[i] == frame@[i]);
                    }
                }
            }
            px = px + 1;
        }
        proof {
            assert forall|i: int| 0 <= i < len implies (painted_before(
                params,
                i,
                len as int,
                py as int,
                end_x as int,
            ) <==> painted_before(params, i, len as int, py as int + 1, start_x as int)) by {}
        }
        py = py + 1;
    }
    assert(frame@ =~= rectangle_painted(old(frame)@, params, *color));
}

/// Source byte that lands on byte `i` of the target when a `source_width` by
/// `source_height` image is copied to `(x, y)` of a `frame_width` by
/// `frame_height` frame, or `None` when byte `i` is not written: its pixel
/// lies outside the image or the frame, or does not fit either buffer.
pub open spec fn blit_source(
    i: int,
    len: int,
    x: int,
    y: int,
    source_len: int,
    source_width: int,
    source_height: int,
    frame_width: int,
    frame_height: int,
) -> Option<int> {
    let column = (i / 4) % frame_width;
    let row = (i / 4) / frame_width;
    if frame_width > 0 && pixel_fits((i / 4) * 4, len) && x <= column < clip(
        x + source_width,
        frame_width,
    ) && y <= row < clip(y + source_height, frame_height) && pixel_fits(
        pixel_index(column - x, row - y, source_width),
        source_len,
    ) {
        Some(pixel_index(column - x, row - y, source_width) + i % 4)
    } else {
        None
    }
}

/// `buf` after the image `source` was copied to `(x, y)`.
pub open spec fn blitted(
    buf: Seq<u8>,
    x: int,
    y: int,
    source: Seq<u8>,
    source_width: int,
    source_height: int,
    frame_width: int,
    frame_height: int,
) -> Seq<u8> {
    Seq::new(
        buf.len(),
        |i: int|
            match blit_source(
                i,
                buf.len() as int,
                x,
                y,
                source.len() as int,
                source_width,
                source_height,
                frame_width,
                frame_height,
            ) {
                Some(k) => source[k],
                None => buf[i],
            },
    )
}

/// Source byte for byte `i` among the pixels copied so far, when the rows
/// before `row` are complete and `row` is copied up to `column`.
spec fn blit_source_before(
    i: int,
    len: int,
    x: int,
    y: int,
    source_len: int,
    source_width: int,
    source_height: int,
    frame_width: int,
    frame_height: int,
    row: int,
    column: int,
) -> Option<int> {
    let c = (i / 4) % frame_width;
    let r = (i / 4) / frame_width;
    if r < row || (r == row && c < column) {
        blit_source(
            i,
            len,
            x,
            y,
            source_len,
            source_width,
            source_height,
            frame_width,
            frame_height,
        )
    } else {
        None
    }
}

/// Copies the four bytes at `from` of `source` to `to` of `buffer`.
fn copy_pixel(buffer: &mut [u8], to: usize, source: &[u8], from: usize)
    requires
        pixel_fits(to as int, old(buffer)@.len() as int),
        pixel_fits(from as int, source@.len() as int),
    ensures
        final(buffer)@ == old(buffer)@.update(to as int, source@[from as int]).update(
            to + 1,
            source@[from + 1],
        ).update(to + 2, source@[from + 2]).update(to + 3, source@[from + 3]),
{
    buffer[to] = source[from];
    buffer[to + 1] = source[from + 1];
    buffer[to + 2] = source[from + 2];
    buffer[to + 3] = source[from + 3];
}

/// Copies the `source_width` by `source_height` image `source` to `(x, y)` of
/// a `frame_width` by `frame_height` frame, row by row. Rows and columns
/// beyond the frame are dropped, and a pixel that does not fit either buffer
/// is skipped.
pub fn blit(
    buffer: &mut [u8],
    x: u32,
    y: u32,
    source: &[u8],
    source_width: u32,
    source_height: u32,
    frame_width: u32,
    frame_height: u32,
)
    ensures
        final(buffer)@ == blitted(
            old(buffer)@,
            x as int,
            y as int,
            source@,
            source_width as int,
            source_height as int,
            frame_width as int,
            frame_height as int,
        ),
{
    let len = buffer.len();
    let source_len = source.len();
    if frame_width == 0 {
        assert(buffer@ =~= blitted(
            old(buffer)@,
            x as int,
            y as int,
            source@,
            source_width as int,
            source_height as int,
            frame_width as int,
            frame_height as int,
        ));
        return ;
    }
    let x_far: u64 = x as u64 + source_width as u64;
    let y_far: u64 = y as u64 + source_height as u64;
    let end_x: u64 = if x_far < frame_width as u64 {
        x_far
    } else {
        frame_width as u64
    };
    let end_y: u64 = if y_far < frame_height as u64 {
        y_far
    } else {
        frame_height as u64
    };
    let mut py: u64 = y as u64;
    while py < end_y
        invariant
            frame_width > 0,
            len == old(buffer)@.len(),
            buffer@.len() == len,
            source_len == source@.len(),
            end_x == clip(x + source_width, frame_width as int),
            end_y == clip(y + source_height, frame_height as int),
            y <= py,
            py <= end_y || end_y < y,
            forall|i: int|
                0 <= i < len ==> buffer@[i] == (match blit_source_before(
                    i,
                    len as int,
                    x as int,
                    y as int,
                    source_len as int,
                    source_width as int,
                    source_height as int,
                    frame_width as int,
                    frame_height as int,
                    py as int,
                    x as int,
                ) {
                    Some(k) => source@[k],
                    None => old(buffer)@[i],
                }),
        decreases end_y - py,
    {
        let mut px: u64 = x as u64;
        while px < end_x
            invariant
                frame_width > 0,
                len == old(buffer)@.len(),
                buffer@.len() == len,
                source_len == source@.len(),
                end_x == clip(x + source_width, frame_width as int),
                end_y == clip(y + source_height, frame_height as int),
                y <= py < end_y,
                x <= px,
                px <= end_x || end_x < x,
                forall|i: int|
                    0 <= i < len ==> buffer@[i] == (match blit_source_before(
                        i,
                        len as int,
                        x as int,
                        y as int,
                        source_len as int,
                        source_width as int,
                        source_height as int,
                        frame_width as int,
                        frame_height as int,
                        py as int,
                        px as int,
                    ) {
                        Some(k) => source@[k],
                        None => old(buffer)@[i],
                    }),
            decreases end_x - px,
        {
            let ghost before = buffer@;
            let to = pixel_slot(px as u32, py as u32, frame_width, len);
            let from = pixel_slot((px - x as u64) as u32, (py - y as u64) as u32, source_width, source_len);
            proof {
                lemma_pixel_coordinates(px as int, py as int, frame_width as int);
            }
            match (to, from) {
                (Some(t), Some(f)) => {
                    copy_pixel(buffer, t, source, f);
                },
                _ => {},
            }
            proof {
                let pixel = py * frame_width + px;
                assert forall|i: int| 0 <= i < len implies buffer@[i] == (match blit_source_before(
                    i,
                    len as int,
                    x as int,
                    y as int,
                    source_len as int,
                    source_width as int,
                    source_height as int,
                    frame_width as int,
                    frame_height as int,
                    py as int,
                    px as int + 1,
                ) {
                    Some(k) => source@[k],
                    None => old(buffer)@[i],
                }) by {
                    lemma_pixel_of_coordinates(i / 4, frame_width as int);
                    if i / 4 == pixel {
                    } else {
                        assert(before[i] == buffer@[i]);
                    }
                }
            }
            px = px + 1;
        }
        proof {
            assert forall|i: int| 0 <= i < len implies #[trigger] blit_source_before(
                i,
                len as int,
                x as int,
                y as int,
                source_len as int,
                source_width as int,
                source_height as int,
                frame_width as int,
                frame_height as int,
                py as int,
                px as int,
            ) == blit_source_before(
                i,
                len as int,
                x as int,
                y as int,
                source_len as int,
                source_width as int,
                source_height as int,
                frame_width as int,
                frame_height as int,
                py as int + 1,
                x as int,
            ) by {}
        }
        py = py + 1;
    }
    assert(buffer@ =~= blitted(
        old(buffer)@,
        x as int,
        y as int,
        source@,
        source_width as int,
        source_height as int,
        frame_width as int,
        frame_height as int,
    ));
}

/// Message of a single-pixel write that does not fit.
pub open spec fn out_of_bounds_text() -> Seq<char> {
    "Pixel position out of bounds"@
}

/// Size in bytes of a `width` by `height` RGBA buffer, as a `u32`.
pub fn calculate_buffer_size_napi(width: u32, height: u32) -> (size: u32)
    requires
        frame_len(width as int, height as int) <= u32::MAX,
    ensures
        size == frame_len(width as int, height as int),
{
    calculate_buffer_size(width, height) as u32
}

/// A zeroed RGBA buffer for `width` by `height` pixels.
pub fn create_rgba_buffer(width: u32, height: u32) -> (buffer: Vec<u8>)
    requires
        frame_len(width as int, height as int) <= usize::MAX,
    ensures
        buffer@ == Seq::new(frame_len(width as int, height as int) as nat, |i: int| 0u8),
{
    let size = calculate_buffer_size(width, height);
    let buffer = vec![0u8; size];
    assert(buffer@ =~= Seq::new(size as nat, |i: int| 0u8));
    buffer
}

/// A new buffer as long as `buffer` in which every complete pixel is `color`;
/// see [`fill_buffer_rgba_optimized`].
pub fn fill_buffer_color(buffer: &[u8], color: Color) -> (result: Result<Vec<u8>, OverlayError>)
    ensures
        result matches Ok(filled) && filled@ == painted(
            buffer@.len(),
            color,
            Seq::new(buffer@.len(), |i: int| 0u8),
        ),
{
    Ok(fill_buffer_rgba_optimized(buffer, color.r, color.g, color.b, color.a))
}

/// A copy of `buffer` with `color` written at `(x, y)`, or the refusal of a
/// pixel that does not fit as an invalid argument.
pub fn draw_pixel(buffer: &[u8], x: u32, y: u32, width: u32, color: Color) -> (result: Result<
    Vec<u8>,
    OverlayError,
>)
    ensures
        pixel_fits(pixel_index(x as int, y as int, width as int), buffer@.len() as int) ==> {
            &&& result matches Ok(drawn)
            &&& drawn@ == with_pixel(buffer@, pixel_index(x as int, y as int, width as int), color)
        },
        !pixel_fits(pixel_index(x as int, y as int, width as int), buffer@.len() as int) ==> {
            &&& result matches Err(OverlayError::InvalidArgument(message))
            &&& message@ == out_of_bounds_text()
        },
{
    let mut new_data = slice_to_vec(buffer);
    match draw_pixel_safe(new_data.as_mut_slice(), x, y, width, &color) {
        Ok(()) => Ok(new_data),
        Err(message) => Err(OverlayError::InvalidArgument(message)),
    }
}

/// A copy of `buffer` with the line of `params` drawn in its color.
pub fn draw_line(buffer: &[u8], params: LineParams) -> (result: Result<Vec<u8>, OverlayError>)
    ensures
        result matches Ok(drawn) && drawn@ == plot_all(
            buffer@,
            line_points(params.x1 as int, params.y1 as int, params.x2 as int, params.y2 as int),
            params.buffer_width as int,
            params.buffer_height as int,
            params.color,
        ),
{
    let mut new_data = slice_to_vec(buffer);
    let color = params.color;
    draw_line_optimized(new_data.as_mut_slice(), params, &color);
    Ok(new_data)
}

/// A copy of `buffer` with the circle of `radius` about `(cx, cy)` drawn in
/// `color`.
pub fn draw_circle(
    buffer: &[u8],
    cx: u32,
    cy: u32,
    radius: u32,
    buffer_width: u32,
    buffer_height: u32,
    color: Color,
) -> (result: Result<Vec<u8>, OverlayError>)
    ensures
        result matches Ok(drawn) && drawn@ == plot_all(
            buffer@,
            circle_points(cx as int, cy as int, radius as int),
            buffer_width as int,
            buffer_height as int,
            color,
        ),
{
    let mut new_data = slice_to_vec(buffer);
    draw_circle_optimized(
        new_data.as_mut_slice(),
        cx,
        cy,
        radius,
        buffer_width,
        buffer_height,
        &color,
    );
    Ok(new_data)
}

/// In a buffer filled for `width` by `height` pixels every group of four
/// bytes holds the channels of the color in order.
pub proof fn lemma_fill_groups(width: nat, height: nat, color: Color, rest: Seq<u8>, pixel: int)
    requires
        0 <= pixel < width * height,
    ensures
        painted((width * height * 4) as nat, color, rest).len() == width * height * 4,
        painted((width * height * 4) as nat, color, rest).subrange(4 * pixel, 4 * pixel + 4)
            == color.bytes(),
{
    let len = (width * height * 4) as nat;
    let filled = painted(len, color, rest);
    assert(len % 4 == 0);
    assert(filled.subrange(4 * pixel, 4 * pixel + 4) =~= color.bytes());
}

/// A rectangle changes no byte of a pixel outside its own extent or outside
/// the frame: the columns it paints lie in `[x, x + width)` and below the
/// frame width, the rows in `[y, y + height)` and below the frame height.
pub proof fn lemma_rectangle_clipped(buf: Seq<u8>, params: RectangleParams, color: Color, i: int)
    requires
        0 <= i < buf.len(),
        params.frame_width > 0,
    ensures
        rectangle_painted(buf, params, color).len() == buf.len(),
        rectangle_painted(buf, params, color)[i] != buf[i] ==> {
            let column = (i / 4) % (params.frame_width as int);
            let row = (i / 4) / (params.frame_width as int);
            &&& params.x <= column < params.x + params.width
            &&& column < params.frame_width
            &&& params.y <= row < params.y + params.height
            &&& row < params.frame_height
        },
{
}

/// The circle of radius zero is the single pixel at its center.
pub proof fn lemma_circle_of_radius_zero(
    buf: Seq<u8>,
    cx: int,
    cy: int,
    width: int,
    height: int,
    color: Color,
)
    ensures
        plot_all(buf, circle_points(cx, cy, 0), width, height, color) == plot(
            buf,
            cx,
            cy,
            width,
            height,
            color,
        ),
{
    let points = circle_points(cx, cy, 0);
    assert(circle_walk(cx, cy, 1, next_height(0, 3), next_decision(0, 0, 3)) =~= Seq::<
        (int, int),
    >::empty());
    assert(points =~= octant_points(cx, cy, 0, 0));
    lemma_plot_all_eight(buf, points, width, height, color);
    let once = plot(buf, cx, cy, width, height, color);
    assert(plot(once, cx, cy, width, height, color) =~= once);
}

} // verus!
