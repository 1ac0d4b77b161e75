//! Mipmaps: an image halved again and again, each level filtered from the
//! one above it.

use vstd::prelude::*;
use crate::color::PremultipliedColorU8;
use crate::halving::{halved, lemma_halved_decreases};
use crate::pixmap::{pixel_count, Pixmap, PixmapRef, PixmapView};
use crate::scalar::{Scalar, HALF_BITS};

verus! {

/// The mean of four channel values, rounded down.
pub open spec fn mean4(a: u8, b: u8, c: u8, d: u8) -> u8 {
    ((a + b + c + d) / 4) as u8
}

/// The mean of six channel values in which `b` and `e`, the middle ones of
/// two rows or columns, count twice. Rounded down.
pub open spec fn mean6(a: u8, b: u8, c: u8, d: u8, e: u8, f: u8) -> u8 {
    ((a + 2 * b + c + d + 2 * e + f) / 8) as u8
}

/// The mean of a three by three block under the weights 1 2 1, 2 4 2,
/// 1 2 1. Rounded down.
pub open spec fn mean9(a: u8, b: u8, c: u8, d: u8, e: u8, f: u8, g: u8, h: u8, i: u8) -> u8 {
    ((a + 2 * b + c + 2 * d + 4 * e + 2 * f + g + 2 * h + i) / 16) as u8
}

/// The pixel in column `x` of row `y` of an image `width` pixels wide.
pub open spec fn pixel_at(pixels: Seq<PremultipliedColorU8>, width: int, x: int, y: int)
    -> PremultipliedColorU8 {
    pixels[y * width + x]
}

/// The box filter over the two by two block whose top left pixel is
/// `(x, y)`.
pub open spec fn filter_2_2(pixels: Seq<PremultipliedColorU8>, width: int, x: int, y: int)
    -> PremultipliedColorU8 {
    let p1 = pixel_at(pixels, width, x, y);
    let p2 = pixel_at(pixels, width, x + 1, y);
    let p3 = pixel_at(pixels, width, x, y + 1);
    let p4 = pixel_at(pixels, width, x + 1, y + 1);
    PremultipliedColorU8 {
        r: mean4(p1.r, p2.r, p3.r, p4.r),
        g: mean4(p1.g, p2.g, p3.g, p4.g),
        b: mean4(p1.b, p2.b, p3.b, p4.b),
        a: mean4(p1.a, p2.a, p3.a, p4.a),
    }
}

/// The filter over the block two pixels wide and three high whose top left
/// pixel is `(x, y)`: a box across, a triangle down.
pub open spec fn filter_2_3(pixels: Seq<PremultipliedColorU8>, width: int, x: int, y: int)
    -> PremultipliedColorU8 {
    let p1 = pixel_at(pixels, width, x, y);
    let p2 = pixel_at(pixels, width, x + 1, y);
    let p3 = pixel_at(pixels, width, x, y + 1);
    let p4 = pixel_at(pixels, width, x + 1, y + 1);
    let p5 = pixel_at(pixels, width, x, y + 2);
    let p6 = pixel_at(pixels, width, x + 1, y + 2);
    PremultipliedColorU8 {
        r: mean6(p1.r, p3.r, p5.r, p2.r, p4.r, p6.r),
        g: mean6(p1.g, p3.g, p5.g, p2.g, p4.g, p6.g),
        b: mean6(p1.b, p3.b, p5.b, p2.b, p4.b, p6.b),
        a: mean6(p1.a, p3.a, p5.a, p2.a, p4.a, p6.a),
    }
}

/// The filter over the block three pixels wide and two high whose top left
/// pixel is `(x, y)`: a triangle across, a box down.
pub open spec fn filter_3_2(pixels: Seq<PremultipliedColorU8>, width: int, x: int, y: int)
    -> PremultipliedColorU8 {
    let p1 = pixel_at(pixels, width, x, y);
    let p2 = pixel_at(pixels, width, x + 1, y);
    let p3 = pixel_at(pixels, width, x + 2, y);
    let p4 = pixel_at(pixels, width, x, y + 1);
    let p5 = pixel_at(pixels, width, x + 1, y + 1);
    let p6 = pixel_at(pixels, width, x + 2, y + 1);
    PremultipliedColorU8 {
        r: mean6(p1.r, p2.r, p3.r, p4.r, p5.r, p6.r),
        g: mean6(p1.g, p2.g, p3.g, p4.g, p5.g, p6.g),
        b: mean6(p1.b, p2.b, p3.b, p4.b, p5.b, p6.b),
        a: mean6(p1.a, p2.a, p3.a, p4.a, p5.a, p6.a),
    }
}

/// The triangle filter over the three by three block whose top left pixel
/// is `(x, y)`.
pub open spec fn filter_3_3(pixels: Seq<PremultipliedColorU8>, width: int, x: int, y: int)
    -> PremultipliedColorU8 {
    let p1 = pixel_at(pixels, width, x, y);
    let p2 = pixel_at(pixels, width, x + 1, y);
    let p3 = pixel_at(pixels, width, x + 2, y);
    let p4 = pixel_at(pixels, width, x, y + 1);
    let p5 = pixel_at(pixels, width, x + 1, y + 1);
    let p6 = pixel_at(pixels, width, x + 2, y + 1);
    let p7 = pixel_at(pixels, width, x, y + 2);
    let p8 = pixel_at(pixels, width, x + 1, y + 2);
    let p9 = pixel_at(pixels, width, x + 2, y + 2);
    PremultipliedColorU8 {
        r: mean9(p1.r, p2.r, p3.r, p4.r, p5.r, p6.r, p7.r, p8.r, p9.r),
        g: mean9(p1.g, p2.g, p3.g, p4.g, p5.g, p6.g, p7.g, p8.g, p9.g),
        b: mean9(p1.b, p2.b, p3.b, p4.b, p5.b, p6.b, p7.b, p8.b, p9.b),
        a: mean9(p1.a, p2.a, p3.a, p4.a, p5.a, p6.a, p7.a, p8.a, p9.a),
    }
}

/// Runtime form of [`mean4`].
fn average4(a: u8, b: u8, c: u8, d: u8) -> (r: u8)
    ensures
        r == mean4(a, b, c, d),
{
    ((a as u16 + b as u16 + c as u16 + d as u16) / 4) as u8
}

/// Runtime form of [`mean6`].
fn average6(a: u8, b: u8, c: u8, d: u8, e: u8, f: u8) -> (r: u8)
    ensures
        r == mean6(a, b, c, d, e, f),
{
    ((a as u16 + 2 * (b as u16) + c as u16 + d as u16 + 2 * (e as u16) + f as u16) / 8) as u8
}

/// Runtime form of [`mean9`].
fn average9(a: u8, b: u8, c: u8, d: u8, e: u8, f: u8, g: u8, h: u8, i: u8) -> (r: u8)
    ensures
        r == mean9(a, b, c, d, e, f, g, h, i),
{
    ((a as u16 + 2 * (b as u16) + c as u16 + 2 * (d as u16) + 4 * (e as u16) + 2 * (f as u16)
        + g as u16 + 2 * (h as u16) + i as u16) / 16) as u8
}

/// What a row filter needs of its arguments: the source holds `rows`
/// rows from `src_y` on, each with `columns` pixels more than twice the
/// destination's width less two, and the destination holds row `dst_y`.
pub open spec fn rows_fit(
    src_len: int,
    src_y: int,
    src_width: int,
    dst_len: int,
    dst_y: int,
    dst_width: int,
    columns: int,
    rows: int,
) -> bool {
    &&& 2 * dst_width + columns - 2 <= src_width
    &&& (src_y + rows) * src_width <= src_len
    &&& (dst_y + 1) * dst_width <= dst_len
}

/// What a row filter leaves behind: row `dst_y` of the destination holds
/// `filtered(x)` in each column `x`, and every other pixel is as it was.
pub open spec fn row_written(
    before: Seq<PremultipliedColorU8>,
    after: Seq<PremultipliedColorU8>,
    dst_y: int,
    dst_width: int,
    filtered: spec_fn(int) -> PremultipliedColorU8,
) -> bool {
    &&& after.len() == before.len()
    &&& forall|i: int|
        0 <= i < after.len() ==> #[trigger] after[i] == (if dst_y * dst_width <= i < dst_y
            * dst_width + dst_width {
            filtered(i - dst_y * dst_width)
        } else {
            before[i]
        })
}

/// Row starts are where the arithmetic of a row filter says they are.
proof fn lemma_row_starts(src_y: int, src_width: int, rows: int, src_len: int)
    requires
        0 <= src_y,
        0 <= src_width,
        1 <= rows <= 3,
        (src_y + rows) * src_width <= src_len,
    ensures
        0 <= src_y * src_width,
        (src_y + 1) * src_width == src_y * src_width + src_width,
        (src_y + 2) * src_width == src_y * src_width + 2 * src_width,
        (src_y + 3) * src_width == src_y * src_width + 3 * src_width,
        src_y * src_width + rows * src_width <= src_len,
{
    assert(0 <= src_y * src_width) by (nonlinear_arith)
        requires
            0 <= src_y,
            0 <= src_width,
    ;
    assert((src_y + 1) * src_width == src_y * src_width + src_width) by (nonlinear_arith);
    assert((src_y + 2) * src_width == src_y * src_width + 2 * src_width) by (nonlinear_arith);
    assert((src_y + 3) * src_width == src_y * src_width + 3 * src_width) by (nonlinear_arith);
    assert((src_y + rows) * src_width == src_y * src_width + rows * src_width)
        by (nonlinear_arith);
}

/// Computes [`filter_2_2`] for the block whose top left pixel is `(x, y)`.
fn filtered_2_2(src_pixels: &[PremultipliedColorU8], src_width: usize, x: usize, y: usize) -> (r:
    PremultipliedColorU8)
    requires
        x + 2 <= src_width,
        (y + 2) * src_width <= src_pixels@.len(),
    ensures
        r == filter_2_2(src_pixels@, src_width as int, x as int, y as int),
{
    let src_len = src_pixels.len();
    proof {
        lemma_row_starts(y as int, src_width as int, 2, src_len as int);
    }
    let row0 = y * src_width;
    let row1 = row0 + src_width;
    let p1 = src_pixels[row0 + x];
    let p2 = src_pixels[row0 + x + 1];
    let p3 = src_pixels[row1 + x];
    let p4 = src_pixels[row1 + x + 1];
    let r = average4(p1.red(), p2.red(), p3.red(), p4.red());
    let g = average4(p1.green(), p2.green(), p3.green(), p4.green());
    let b = average4(p1.blue(), p2.blue(), p3.blue(), p4.blue());
    let a = average4(p1.alpha(), p2.alpha(), p3.alpha(), p4.alpha());
    PremultipliedColorU8::from_rgba_unchecked(r, g, b, a)
}

/// Fills row `dst_y` of the destination with the two by two box filter of
/// the source rows `src_y` and `src_y + 1`.
pub fn downsample_2_2(
    src_pixels: &[PremultipliedColorU8],
    src_y: usize,
    src_width: usize,
    dst_pixels: &mut Vec<PremultipliedColorU8>,
    dst_y: usize,
    dst_width: usize,
)
    requires
        rows_fit(
            src_pixels@.len() as int,
            src_y as int,
            src_width as int,
            old(dst_pixels)@.len() as int,
            dst_y as int,
            dst_width as int,
            2,
            2,
        ),
    ensures
        row_written(
            old(dst_pixels)@,
            final(dst_pixels)@,
            dst_y as int,
            dst_width as int,
            |x: int| filter_2_2(src_pixels@, src_width as int, 2 * x, src_y as int),
        ),
{
    let dst_len = dst_pixels.len();
    proof {
        lemma_row_starts(dst_y as int, dst_width as int, 1, dst_len as int);
    }
    let out = dst_y * dst_width;
    let mut src_x: usize = 0;
    let mut dst_x: usize = 0;
    while dst_x < dst_width
        invariant
            dst_x <= dst_width,
            src_x == 2 * dst_x,
            2 * dst_width + 2 - 2 <= src_width,
            (src_y + 2) * src_width <= src_pixels@.len(),
            out == dst_y * dst_width,
            out + dst_width <= dst_len,
            dst_pixels@.len() == old(dst_pixels)@.len(),
            dst_pixels@.len() == dst_len,
            forall|i: int|
                0 <= i < dst_pixels@.len() ==> #[trigger] dst_pixels@[i] == (if out <= i < out
                    + dst_x {
                    filter_2_2(src_pixels@, src_width as int, 2 * (i - out), src_y as int)
                } else {
                    old(dst_pixels)@[i]
                }),
        decreases dst_width - dst_x,
    {
        let pixel = filtered_2_2(src_pixels, src_width, src_x, src_y);
        dst_pixels.set(out + dst_x, pixel);
        src_x += 2;
        dst_x += 1;
    }
}

/// Computes [`filter_2_3`] for the block whose top left pixel is `(x, y)`.
fn filtered_2_3(src_pixels: &[PremultipliedColorU8], src_width: usize, x: usize, y: usize) -> (r:
    PremultipliedColorU8)
    requires
        x + 2 <= src_width,
        (y + 3) * src_width <= src_pixels@.len(),
    ensures
        r == filter_2_3(src_pixels@, src_width as int, x as int, y as int),
{
    let src_len = src_pixels.len();
    proof {
        lemma_row_starts(y as int, src_width as int, 3, src_len as int);
    }
    let row0 = y * src_width;
    let row1 = row0 + src_width;
    let row2 = row1 + src_width;
    let p1 = src_pixels[row0 + x];
    let p2 = src_pixels[row0 + x + 1];
    let p3 = src_pixels[row1 + x];
    let p4 = src_pixels[row1 + x + 1];
    let p5 = src_pixels[row2 + x];
    let p6 = src_pixels[row2 + x + 1];
    let r = average6(p1.red(), p3.red(), p5.red(), p2.red(), p4.red(), p6.red());
    let g = average6(p1.green(), p3.green(), p5.green(), p2.green(), p4.green(), p6.green());
    let b = average6(p1.blue(), p3.blue(), p5.blue(), p2.blue(), p4.blue(), p6.blue());
    let a = average6(p1.alpha(), p3.alpha(), p5.alpha(), p2.alpha(), p4.alpha(), p6.alpha());
    PremultipliedColorU8::from_rgba_unchecked(r, g, b, a)
}

/// Fills row `dst_y` of the destination from the source rows `src_y` to
/// `src_y + 2`: a box filter across two columns, a triangle filter down
/// three rows.
pub fn downsample_2_3(
    src_pixels: &[PremultipliedColorU8],
    src_y: usize,
    src_width: usize,
    dst_pixels: &mut Vec<PremultipliedColorU8>,
    dst_y: usize,
    dst_width: usize,
)
    requires
        rows_fit(
            src_pixels@.len() as int,
            src_y as int,
            src_width as int,
            old(dst_pixels)@.len() as int,
            dst_y as int,
            dst_width as int,
            2,
            3,
        ),
    ensures
        row_written(
            old(dst_pixels)@,
            final(dst_pixels)@,
            dst_y as int,
            dst_width as int,
            |x: int| filter_2_3(src_pixels@, src_width as int, 2 * x, src_y as int),
        ),
{
    let dst_len = dst_pixels.len();
    proof {
        lemma_row_starts(dst_y as int, dst_width as int, 1, dst_len as int);
    }
    let out = dst_y * dst_width;
    let mut src_x: usize = 0;
    let mut dst_x: usize = 0;
    while dst_x < dst_width
        invariant
            dst_x <= dst_width,
            src_x == 2 * dst_x,
            2 * dst_width + 2 - 2 <= src_width,
            (src_y + 3) * src_width <= src_pixels@.len(),
            out == dst_y * dst_width,
            out + dst_width <= dst_len,
            dst_pixels@.len() == old(dst_pixels)@.len(),
            dst_pixels@.len() == dst_len,
            forall|i: int|
                0 <= i < dst_pixels@.len() ==> #[trigger] dst_pixels@[i] == (if out <= i < out
                    + dst_x {
                    filter_2_3(src_pixels@, src_width as int, 2 * (i - out), src_y as int)
                } else {
                    old(dst_pixels)@[i]
                }),
        decreases dst_width - dst_x,
    {
        let pixel = filtered_2_3(src_pixels, src_width, src_x, src_y);
        dst_pixels.set(out + dst_x, pixel);
        src_x += 2;
        dst_x += 1;
    }
}

/// Computes [`filter_3_2`] for the block whose top left pixel is `(x, y)`.
fn filtered_3_2(src_pixels: &[PremultipliedColorU8], src_width: usize, x: usize, y: usize) -> (r:
    PremultipliedColorU8)
    requires
        x + 3 <= src_width,
        (y + 2) * src_width <= src_pixels@.len(),
    ensures
        r == filter_3_2(src_pixels@, src_width as int, x as int, y as int),
{
    let src_len = src_pixels.len();
    proof {
        lemma_row_starts(y as int, src_width as int, 2, src_len as int);
    }
    let row0 = y * src_width;
    let row1 = row0 + src_width;
    let p1 = src_pixels[row0 + x];
    let p2 = src_pixels[row0 + x + 1];
    let p3 = src_pixels[row0 + x + 2];
    let p4 = src_pixels[row1 + x];
    let p5 = src_pixels[row1 + x + 1];
    let p6 = src_pixels[row1 + x + 2];
    let r = average6(p1.red(), p2.red(), p3.red(), p4.red(), p5.red(), p6.red());
    let g = average6(p1.green(), p2.green(), p3.green(), p4.green(), p5.green(), p6.green());
    let b = average6(p1.blue(), p2.blue(), p3.blue(), p4.blue(), p5.blue(), p6.blue());
    let a = average6(p1.alpha(), p2.alpha(), p3.alpha(), p4.alpha(), p5.alpha(), p6.alpha());
    PremultipliedColorU8::from_rgba_unchecked(r, g, b, a)
}

/// Fills row `dst_y` of the destination from the source rows `src_y` and
/// `src_y + 1`: a triangle filter across three columns, a box filter down
/// two rows.
pub fn downsample_3_2(
    src_pixels: &[PremultipliedColorU8],
    src_y: usize,
    src_width: usize,
    dst_pixels: &mut Vec<PremultipliedColorU8>,
    dst_y: usize,
    dst_width: usize,
)
    requires
        rows_fit(
            src_pixels@.len() as int,
            src_y as int,
            src_width as int,
            old(dst_pixels)@.len() as int,
            dst_y as int,
            dst_width as int,
            3,
            2,
        ),
    ensures
        row_written(
            old(dst_pixels)@,
            final(dst_pixels)@,
            dst_y as int,
            dst_width as int,
            |x: int| filter_3_2(src_pixels@, src_width as int, 2 * x, src_y as int),
        ),
{
    let dst_len = dst_pixels.len();
    proof {
        lemma_row_starts(dst_y as int, dst_width as int, 1, dst_len as int);
    }
    let out = dst_y * dst_width;
    let mut src_x: usize = 0;
    let mut dst_x: usize = 0;
    while dst_x < dst_width
        invariant
            dst_x <= dst_width,
            src_x == 2 * dst_x,
            2 * dst_width + 3 - 2 <= src_width,
            (src_y + 2) * src_width <= src_pixels@.len(),
            out == dst_y * dst_width,
            out + dst_width <= dst_len,
            dst_pixels@.len() == old(dst_pixels)@.len(),
            dst_pixels@.len() == dst_len,
            forall|i: int|
                0 <= i < dst_pixels@.len() ==> #[trigger] dst_pixels@[i] == (if out <= i < out
                    + dst_x {
                    filter_3_2(src_pixels@, src_width as int, 2 * (i - out), src_y as int)
                } else {
                    old(dst_pixels)@[i]
                }),
        decreases dst_width - dst_x,
    {
        let pixel = filtered_3_2(src_pixels, src_width, src_x, src_y);
        dst_pixels.set(out + dst_x, pixel);
        src_x += 2;
        dst_x += 1;
    }
}

/// Computes [`filter_3_3`] for the block whose top left pixel is `(x, y)`.
fn filtered_3_3(src_pixels: &[PremultipliedColorU8], src_width: usize, x: usize, y: usize) -> (r:
    PremultipliedColorU8)
    requires
        x + 3 <= src_width,
        (y + 3) * src_width <= src_pixels@.len(),
    ensures
        r == filter_3_3(src_pixels@, src_width as int, x as int, y as int),
{
    let src_len = src_pixels.len();
    proof {
        lemma_row_starts(y as int, src_width as int, 3, src_len as int);
    }
    let row0 = y * src_width;
    let row1 = row0 + src_width;
    let row2 = row1 + src_width;
    let p1 = src_pixels[row0 + x];
    let p2 = src_pixels[row0 + x + 1];
    let p3 = src_pixels[row0 + x + 2];
    let p4 = src_pixels[row1 + x];
    let p5 = src_pixels[row1 + x + 1];
    let p6 = src_pixels[row1 + x + 2];
    let p7 = src_pixels[row2 + x];
    let p8 = src_pixels[row2 + x + 1];
    let p9 = src_pixels[row2 + x + 2];
    let r = average9(
        p1.red(),
        p2.red(),
        p3.red(),
        p4.red(),
        p5.red(),
        p6.red(),
        p7.red(),
        p8.red(),
        p9.red(),
    );
    let g = average9(
        p1.green(),
        p2.green(),
        p3.green(),
        p4.green(),
        p5.green(),
        p6.green(),
        p7.green(),
        p8.green(),
        p9.green(),
    );
    let b = average9(
        p1.blue(),
        p2.blue(),
        p3.blue(),
        p4.blue(),
        p5.blue(),
        p6.blue(),
        p7.blue(),
        p8.blue(),
        p9.blue(),
    );
    let a = average9(
        p1.alpha(),
        p2.alpha(),
        p3.alpha(),
        p4.alpha(),
        p5.alpha(),
        p6.alpha(),
        p7.alpha(),
        p8.alpha(),
        p9.alpha(),
    );
    PremultipliedColorU8::from_rgba_unchecked(r, g, b, a)
}

/// Fills row `dst_y` of the destination from the source rows `src_y` to
/// `src_y + 2` with the triangle filter over three columns and three rows.
pub fn downsample_3_3(
    src_pixels: &[PremultipliedColorU8],
    src_y: usize,
    src_width: usize,
    dst_pixels: &mut Vec<PremultipliedColorU8>,
    dst_y: usize,
    dst_width: usize,
)
    requires
        rows_fit(
            src_pixels@.len() as int,
            src_y as int,
            src_width as int,
            old(dst_pixels)@.len() as int,
            dst_y as int,
            dst_width as int,
            3,
            3,
        ),
    ensures
        row_written(
            old(dst_pixels)@,
            final(dst_pixels)@,
            dst_y as int,
            dst_width as int,
            |x: int| filter_3_3(src_pixels@, src_width as int, 2 * x, src_y as int),
        ),
{
    let dst_len = dst_pixels.len();
    proof {
        lemma_row_starts(dst_y as int, dst_width as int, 1, dst_len as int);
    }
    let out = dst_y * dst_width;
    let mut src_x: usize = 0;
    let mut dst_x: usize = 0;
    while dst_x < dst_width
        invariant
            dst_x <= dst_width,
            src_x == 2 * dst_x,
            2 * dst_width + 3 - 2 <= src_width,
            (src_y + 3) * src_width <= src_pixels@.len(),
            out == dst_y * dst_width,
            out + dst_width <= dst_len,
            dst_pixels@.len() == old(dst_pixels)@.len(),
            dst_pixels@.len() == dst_len,
            forall|i: int|
                0 <= i < dst_pixels@.len() ==> #[trigger] dst_pixels@[i] == (if out <= i < out
                    + dst_x {
                    filter_3_3(src_pixels@, src_width as int, 2 * (i - out), src_y as int)
                } else {
                    old(dst_pixels)@[i]
                }),
        decreases dst_width - dst_x,
    {
        let pixel = filtered_3_3(src_pixels, src_width, src_x, src_y);
        dst_pixels.set(out + dst_x, pixel);
        src_x += 2;
        dst_x += 1;
    }
}

/// The pixel of the half-size image in column `x` of row `y`: the filter
/// over the source block at `(2x, 2y)`, two pixels along an even side and
/// three along an odd one, so that no source pixel is left out.
pub open spec fn sample(src: PixmapView, x: int, y: int) -> PremultipliedColorU8 {
    if src.width % 2 == 0 {
        if src.height % 2 == 0 {
            filter_2_2(src.pixels, src.width, 2 * x, 2 * y)
        } else {
            filter_2_3(src.pixels, src.width, 2 * x, 2 * y)
        }
    } else {
        if src.height % 2 == 0 {
            filter_3_2(src.pixels, src.width, 2 * x, 2 * y)
        } else {
            filter_3_3(src.pixels, src.width, 2 * x, 2 * y)
        }
    }
}

/// `dst` is `src` at half the size: each side halved, rounded down, and
/// each pixel the [`sample`] of its block.
pub open spec fn is_half_of(dst: PixmapView, src: PixmapView) -> bool {
    &&& dst.width == src.width / 2
    &&& dst.height == src.height / 2
    &&& dst.pixels.len() == dst.width * dst.height
    &&& forall|x: int, y: int|
        0 <= x < dst.width && 0 <= y < dst.height ==> #[trigger] pixel_at(
            dst.pixels,
            dst.width,
            x,
            y,
        ) == sample(src, x, y)
}

/// Where a pixel lies among the rows of an image.
proof fn lemma_pixel_index(x: int, y: int, width: int, height: int)
    requires
        0 <= x < width,
        0 <= y < height,
    ensures
        0 <= y * width,
        y * width + x < (y + 1) * width,
        (y + 1) * width <= height * width,
        (y + 1) * width == y * width + width,
{
    assert(0 <= y * width) by (nonlinear_arith)
        requires
            0 <= y,
            0 <= width,
    ;
    assert((y + 1) * width == y * width + width) by (nonlinear_arith);
    assert((y + 1) * width <= height * width) by (nonlinear_arith)
        requires
            y + 1 <= height,
            0 <= width,
    ;
}

/// Filters an image down to half its size.
pub fn halve(src: PixmapRef) -> (dst: Pixmap)
    requires
        src@.width >= 2,
        src@.height >= 2,
    ensures
        dst@.wf(),
        is_half_of(dst@, src@),
{
    let src_pixels = src.pixels();
    let src_width = src.width() as usize;
    let src_height = src.height() as usize;
    let dst_width = src_width / 2;
    let dst_height = src_height / 2;
    let wide = src_width % 2 != 0;
    let tall = src_height % 2 != 0;
    let ghost columns: int = if wide { 3 } else { 2 };
    let ghost rows: int = if tall { 3 } else { 2 };
    let src_len = src_pixels.len();
    proof {
        assert(src@.wf());
        assert(src_len == src_width * src_height);
        assert(dst_width * dst_height <= src_width * src_height) by (nonlinear_arith)
            requires
                0 <= dst_width <= src_width,
                0 <= dst_height <= src_height,
        ;
    }
    let half_width: u32 = src.width() / 2;
    let half_height: u32 = src.height() / 2;
    assert(half_width * half_height == dst_width * dst_height);
    let count = pixel_count(half_width, half_height).unwrap();
    let mut dst_pixels = vec![PremultipliedColorU8::transparent(); count];
    let mut dst_y: usize = 0;
    let mut src_y: usize = 0;
    while dst_y < dst_height
        invariant
            dst_y <= dst_height,
            src_y == 2 * dst_y,
            src@.wf(),
            src_pixels@ == src@.pixels,
            src_width == src@.width,
            src_height == src@.height,
            dst_width == src_width / 2,
            dst_height == src_height / 2,
            wide == (src_width % 2 != 0),
            tall == (src_height % 2 != 0),
            columns == (if wide { 3int } else { 2int }),
            rows == (if tall { 3int } else { 2int }),
            dst_pixels@.len() == dst_width * dst_height,
            forall|x: int, y: int|
                0 <= x < dst_width && 0 <= y < dst_y ==> #[trigger] pixel_at(
                    dst_pixels@,
                    dst_width as int,
                    x,
                    y,
                ) == sample(src@, x, y),
        decreases dst_height - dst_y,
    {
        let ghost before = dst_pixels@;
        proof {
            assert((src_y + rows) * src_width <= src_height * src_width) by (nonlinear_arith)
                requires
                    src_y + rows <= src_height,
                    0 <= src_width,
            ;
            assert(src_height * src_width == src_width * src_height) by (nonlinear_arith);
            assert((dst_y + 1) * dst_width <= dst_height * dst_width) by (nonlinear_arith)
                requires
                    dst_y + 1 <= dst_height,
                    0 <= dst_width,
            ;
            assert(dst_height * dst_width == dst_width * dst_height) by (nonlinear_arith);
        }
        if wide {
            if tall {
                downsample_3_3(src_pixels, src_y, src_width, &mut dst_pixels, dst_y, dst_width);
            } else {
                downsample_3_2(src_pixels, src_y, src_width, &mut dst_pixels, dst_y, dst_width);
            }
        } else {
            if tall {
                downsample_2_3(src_pixels, src_y, src_width, &mut dst_pixels, dst_y, dst_width);
            } else {
                downsample_2_2(src_pixels, src_y, src_width, &mut dst_pixels, dst_y, dst_width);
            }
        }
        proof {
            assert forall|x: int, y: int| 0 <= x < dst_width && 0 <= y < dst_y + 1 implies #[trigger] pixel_at(
                dst_pixels@,
                dst_width as int,
                x,
                y,
            ) == sample(src@, x, y) by {
                lemma_pixel_index(x, y, dst_width as int, dst_height as int);
                lemma_pixel_index(x, dst_y as int, dst_width as int, dst_height as int);
                let i = y * dst_width + x;
                assert(dst_height * dst_width == dst_width * dst_height) by (nonlinear_arith);
                if y < dst_y {
                    assert((y + 1) * dst_width <= dst_y * dst_width) by (nonlinear_arith)
                        requires
                            y + 1 <= dst_y,
                            0 <= dst_width,
                    ;
                    assert(dst_pixels@[i] == before[i]);
                    assert(pixel_at(before, dst_width as int, x, y) == sample(src@, x, y));
                } else {
                    assert(dst_pixels@[i] == sample(src@, x, y));
                }
            }
        }
        src_y += 2;
        dst_y += 1;
    }
    Pixmap::from_vec(dst_pixels, half_width, half_height).unwrap()
}

/// Halves a side so many times, rounding down each time.
pub fn halve_side(side: u32, times: usize) -> (r: u32)
    ensures
        r == halved(side as int, times as nat),
{
    let mut r: u32 = side;
    let mut done: usize = 0;
    while done < times && r > 0
        invariant
            done <= times,
            r == halved(side as int, done as nat),
        decreases times - done,
    {
        r = r / 2;
        done += 1;
    }
    proof {
        lemma_halved_decreases(side as int, done as nat, times as nat);
    }
    r
}

/// The sides of the levels that a search for the number of levels looks
/// at: those of the image itself, and then of each level below it, down to
/// the first one with a side of one pixel or less.
pub open spec fn is_level_sizes(width: int, height: int, sizes: Seq<(u32, u32)>) -> bool {
    &&& sizes.len() >= 1
    &&& forall|i: int|
        0 <= i < sizes.len() ==> (#[trigger] sizes[i]).0 == halved(width, i as nat) && sizes[i].1
            == halved(height, i as nat)
    &&& forall|i: int|
        0 <= i < sizes.len() - 1 ==> (#[trigger] sizes[i]).0 > 1 && sizes[i].1 > 1
    &&& sizes.last().0 <= 1 || sizes.last().1 <= 1
}

/// Lists the sides of an image's levels, as [`is_level_sizes`] has them.
pub fn level_sizes(base_pixmap: PixmapRef) -> (sizes: Vec<(u32, u32)>)
    ensures
        is_level_sizes(base_pixmap@.width, base_pixmap@.height, sizes@),
{
    let mut width = base_pixmap.width();
    let mut height = base_pixmap.height();
    let mut sizes: Vec<(u32, u32)> = Vec::new();
    sizes.push((width, height));
    while width > 1 && height > 1
        invariant
            sizes@.len() >= 1,
            sizes@.last() == (width, height),
            forall|i: int|
                0 <= i < sizes@.len() ==> (#[trigger] sizes@[i]).0 == halved(
                    base_pixmap@.width,
                    i as nat,
                ) && sizes@[i].1 == halved(base_pixmap@.height, i as nat),
            forall|i: int| 0 <= i < sizes@.len() - 1 ==> (#[trigger] sizes@[i]).0 > 1 && sizes@[i].1 > 1,
        decreases width,
    {
        width = width / 2;
        height = height / 2;
        sizes.push((width, height));
    }
    sizes
}

/// Each level of a chain is well formed and half the one above it, the
/// first being half of `base`.
pub open spec fn is_chain(base: PixmapView, levels: Seq<PixmapView>) -> bool {
    forall|i: int|
        0 <= i < levels.len() ==> (#[trigger] levels[i]).wf() && is_half_of(
            levels[i],
            if i == 0 {
                base
            } else {
                levels[i - 1]
            },
        )
}

/// The images of a list of levels.
pub open spec fn views_of(levels: Seq<Pixmap>) -> Seq<PixmapView> {
    Seq::new(levels.len(), |i: int| levels[i]@)
}

/// The sides of every level of a chain are the base image's sides, halved
/// once per level.
pub proof fn lemma_chain_sides(base: PixmapView, levels: Seq<PixmapView>, index: nat)
    requires
        is_chain(base, levels),
        1 <= index <= levels.len(),
    ensures
        levels[index - 1].width == halved(base.width, index),
        levels[index - 1].height == halved(base.height, index),
    decreases index,
{
    assert(levels[index - 1].wf());
    assert(halved(base.width, index) == halved(base.width, (index - 1) as nat) / 2);
    assert(halved(base.height, index) == halved(base.height, (index - 1) as nat) / 2);
    if index > 1 {
        lemma_chain_sides(base, levels, (index - 1) as nat);
    }
}

/// The levels of an image: the image itself and, below it, each level at
/// half the size of the one above.
#[derive(Debug)]
pub struct Mipmaps<'a> {
    levels: Vec<Pixmap>,
    base_pixmap: PixmapRef<'a>,
}

impl<'a> Mipmaps<'a> {
    /// The image that the levels were made from.
    pub closed spec fn base(self) -> PixmapView {
        self.base_pixmap@
    }

    /// The levels that have been built, the largest first.
    pub closed spec fn built(self) -> Seq<PixmapView> {
        views_of(self.levels@)
    }

    /// Level `index` counted from the base image, which is level 0.
    pub open spec fn level(self, index: int) -> PixmapView {
        if index == 0 {
            self.base()
        } else {
            self.built()[index - 1]
        }
    }

    /// Every level is well formed and half the level above it. This holds
    /// of all mipmaps.
    #[verifier::type_invariant]
    pub open spec fn wf(self) -> bool {
        self.base().wf() && is_chain(self.base(), self.built())
    }

    /// Whether the base image is large enough for so many levels: neither
    /// side may come down to zero.
    pub open spec fn spec_can_build(self, required_levels: usize) -> bool {
        &&& halved(self.base().width, required_levels as nat) >= 1
        &&& halved(self.base().height, required_levels as nat) >= 1
    }

    /// The sides of every level are the base image's sides, halved once
    /// per level.
    pub proof fn lemma_level_sides(self, index: nat)
        requires
            self.wf(),
            index <= self.built().len(),
        ensures
            self.level(index as int).width == halved(self.base().width, index),
            self.level(index as int).height == halved(self.base().height, index),
    {
        if index > 0 {
            lemma_chain_sides(self.base(), self.built(), index);
        }
    }

    /// Starts from a base image, with no level built.
    pub fn new(p: PixmapRef<'a>) -> (r: Self)
        ensures
            r.wf(),
            r.base() == p@,
            r.built().len() == 0,
    {
        proof {
            use_type_invariant(&p);
        }
        Mipmaps { levels: Vec::new(), base_pixmap: p }
    }

    /// The number of levels built so far, the base image not counted.
    pub fn len(&self) -> (n: usize)
        ensures
            n == self.built().len(),
            self.wf(),
    {
        proof {
            use_type_invariant(self);
        }
        self.levels.len()
    }

    /// Whether the base image is large enough for so many levels.
    pub fn can_build(&self, required_levels: usize) -> (r: bool)
        ensures
            r == self.spec_can_build(required_levels),
    {
        halve_side(self.base_pixmap.width(), required_levels) >= 1 && halve_side(
            self.base_pixmap.height(),
            required_levels,
        ) >= 1
    }

    /// The image of a level: the base image for level 0, else a level
    /// built before.
    pub fn get(&self, level: usize) -> (r: PixmapRef<'_>)
        requires
            level <= self.built().len(),
        ensures
            r@ == self.level(level as int),
            self.wf(),
    {
        proof {
            use_type_invariant(self);
        }
        if level > 0 {
            self.levels[level - 1].as_ref()
        } else {
            self.base_pixmap
        }
    }

    /// Builds levels until there are `required_levels` of them, and
    /// returns the number of levels there are then: the index, for `get`,
    /// of the smallest.
    ///
    /// Levels already built stay as they are. The base image must be large
    /// enough for the levels asked for, which `can_build` tells.
    pub fn build(&mut self, required_levels: usize) -> (r: usize)
        requires
            old(self).spec_can_build(required_levels),
        ensures
            final(self).wf(),
            final(self).base() == old(self).base(),
            r == final(self).built().len(),
            r == (if required_levels >= old(self).built().len() {
                required_levels as int
            } else {
                old(self).built().len() as int
            }),
            forall|i: int|
                0 <= i < old(self).built().len() ==> final(self).built()[i] == old(self).built()[i],
    {
        proof {
            use_type_invariant(&*self);
        }
        let base = self.base_pixmap;
        let mut work = Mipmaps { levels: Vec::new(), base_pixmap: base };
        core::mem::swap(self, &mut work);
        let Mipmaps { levels, base_pixmap: _ } = work;
        let mut levels = levels;
        let ghost before = views_of(levels@);
        let mut src_level = levels.len();
        while src_level < required_levels
            invariant
                base@.wf(),
                base@ == old(self).base(),
                is_chain(base@, views_of(levels@)),
                src_level == levels@.len(),
                before == old(self).built(),
                before.len() <= src_level,
                src_level <= required_levels || src_level == before.len(),
                halved(base@.width, required_levels as nat) >= 1,
                halved(base@.height, required_levels as nat) >= 1,
                forall|i: int| 0 <= i < before.len() ==> views_of(levels@)[i] == before[i],
            decreases required_levels - src_level,
        {
            let ghost chain = views_of(levels@);
            proof {
                if src_level > 0 {
                    lemma_chain_sides(base@, chain, src_level as nat);
                }
                lemma_halved_decreases(base@.width, (src_level + 1) as nat, required_levels as nat);
                lemma_halved_decreases(
                    base@.height,
                    (src_level + 1) as nat,
                    required_levels as nat,
                );
                assert(halved(base@.width, (src_level + 1) as nat) == halved(
                    base@.width,
                    src_level as nat,
                ) / 2);
                assert(halved(base@.height, (src_level + 1) as nat) == halved(
                    base@.height,
                    src_level as nat,
                ) / 2);
            }
            let dst_pixmap = if src_level > 0 {
                halve(levels[src_level - 1].as_ref())
            } else {
                halve(base)
            };
            let ghost added = dst_pixmap@;
            levels.push(dst_pixmap);
            proof {
                let longer = views_of(levels@);
                assert(longer.len() == chain.len() + 1);
                assert forall|i: int| 0 <= i < chain.len() implies longer[i] == chain[i] by {}
                assert(longer[src_level as int] == added);
                assert forall|i: int| 0 <= i < longer.len() implies (#[trigger] longer[i]).wf()
                    && is_half_of(
                    longer[i],
                    if i == 0 {
                        base@
                    } else {
                        longer[i - 1]
                    },
                ) by {
                    if i < src_level {
                        assert(chain[i].wf());
                    }
                }
            }
            src_level += 1;
        }
        let mut result = Mipmaps { levels, base_pixmap: base };
        core::mem::swap(self, &mut result);
        src_level
    }
}

/// How many levels a pattern scaled down by a given factor samples from.
///
/// `scaled[k]` holds, for level `k`, the scale of the transform along x
/// and along y, each multiplied by the ratio of the base image's side to
/// that level's side. A further level is taken as long as both numbers are
/// below one half and both sides of the level are above one pixel.
pub open spec fn required_levels(
    width: int,
    height: int,
    scaled: Seq<(Scalar, Scalar)>,
    from: nat,
) -> nat
    decreases scaled.len() - from,
{
    if from < scaled.len() && wants_next_level(
        scaled[from as int],
        halved(width, from),
        halved(height, from),
    ) {
        1 + required_levels(width, height, scaled, from + 1)
    } else {
        0
    }
}

/// Whether the search goes on past a level with these sides.
pub open spec fn wants_next_level(scaled: (Scalar, Scalar), width: int, height: int) -> bool {
    &&& scaled.0.spec_lt(Scalar { bits: HALF_BITS })
    &&& width > 1
    &&& scaled.1.spec_lt(Scalar { bits: HALF_BITS })
    &&& height > 1
}

/// Determines how many mipmap levels are needed for a base image under a
/// transform that scales it down.
///
/// The result is the number of leading entries of `scaled` for which
/// [`wants_next_level`] holds; the search also ends where `scaled` does.
/// The image is large enough for that many levels.
pub fn compute_required_levels(base_pixmap: PixmapRef, scaled: &Vec<(Scalar, Scalar)>) -> (r:
    usize)
    ensures
        r == required_levels(base_pixmap@.width, base_pixmap@.height, scaled@, 0),
        r <= scaled@.len(),
        halved(base_pixmap@.width, r as nat) >= 1,
        halved(base_pixmap@.height, r as nat) >= 1,
{
    let mut levels: usize = 0;
    let mut level_width = base_pixmap.width();
    let mut level_height = base_pixmap.height();
    while levels < scaled.len() && scaled[levels].0.lt(Scalar::half()) && level_width > 1
        && scaled[levels].1.lt(Scalar::half()) && level_height > 1
        invariant
            levels <= scaled@.len(),
            level_width == halved(base_pixmap@.width, levels as nat),
            level_height == halved(base_pixmap@.height, levels as nat),
            level_width >= 1 && level_height >= 1,
            required_levels(base_pixmap@.width, base_pixmap@.height, scaled@, 0) == levels
                + required_levels(
                base_pixmap@.width,
                base_pixmap@.height,
                scaled@,
                levels as nat,
            ),
        decreases scaled@.len() - levels,
    {
        levels += 1;
        level_width = level_width / 2;
        level_height = level_height / 2;
    }
    levels
}

} // verus!
