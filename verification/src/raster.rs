//! Rasters of RGB pixels and the frames that an overlay draws onto them.

use vstd::prelude::*;
use vstd::arithmetic::div_mod::{lemma_fundamental_div_mod, lemma_fundamental_div_mod_converse};
use crate::envelope::Envelope;

verus! {

/// An image of 8-bit RGB pixels, row after row from the top, each row from
/// the left, three bytes a pixel.
#[derive(Debug, PartialEq, Eq)]
pub struct Raster {
    pub width: u32,
    pub height: u32,
    pub pixels: Vec<u8>,
}

/// The greatest coordinate, in absolute value, at which the drawing
/// primitive places a pixel exactly: it computes in single precision.
pub const EXACT_LIMIT: i32 = 0x0100_0000;

/// The red, green and blue of the frames.
pub const FRAME_RED: u8 = 255;

pub const FRAME_GREEN: u8 = 0;

pub const FRAME_BLUE: u8 = 0;

/// Whether the pixel `(x, y)` lies on the border of the rectangle that
/// reaches from `left` to `right` and from `top` to `bottom`, all inclusive.
pub open spec fn on_border(left: int, top: int, right: int, bottom: int, x: int, y: int) -> bool {
    &&& left <= x <= right
    &&& top <= y <= bottom
    &&& (x == left || x == right || y == top || y == bottom)
}

/// The channel `channel` (0, 1 or 2) of the colour `(red, green, blue)`.
pub open spec fn channel_of(red: u8, green: u8, blue: u8, channel: int) -> u8 {
    if channel == 0 {
        red
    } else if channel == 1 {
        green
    } else {
        blue
    }
}

/// The pixels of an image `width` wide after the border of a rectangle has
/// been painted in one colour: a pixel on the border takes the colour, every
/// other pixel stays. The part of the border outside the image is lost.
pub open spec fn painted(
    pixels: Seq<u8>,
    width: int,
    left: int,
    top: int,
    right: int,
    bottom: int,
    red: u8,
    green: u8,
    blue: u8,
) -> Seq<u8> {
    Seq::new(
        pixels.len(),
        |k: int|
            if on_border(left, top, right, bottom, (k / 3) % width, (k / 3) / width) {
                channel_of(red, green, blue, k % 3)
            } else {
                pixels[k]
            },
    )
}

/// The pixels after the frame of an envelope has been drawn: the border, one
/// pixel thick, of the rectangle at `(x_min, y_min)` that is `x_max - x_min`
/// wide and `y_max - y_min` high. A rectangle without width or height has no
/// border.
pub open spec fn framed(pixels: Seq<u8>, width: int, envelope: Envelope) -> Seq<u8> {
    painted(
        pixels,
        width,
        envelope.x_min as int,
        envelope.y_min as int,
        envelope.x_max - 1,
        envelope.y_max - 1,
        FRAME_RED,
        FRAME_GREEN,
        FRAME_BLUE,
    )
}

/// The pixels after the frames of the envelopes have been drawn, one after
/// the other.
pub open spec fn framed_all(pixels: Seq<u8>, width: int, envelopes: Seq<Envelope>) -> Seq<u8>
    decreases envelopes.len(),
{
    if envelopes.len() == 0 {
        pixels
    } else {
        framed(framed_all(pixels, width, envelopes.drop_last()), width, envelopes.last())
    }
}

impl Raster {
    /// Whether the buffer holds exactly the pixels of the stated size.
    pub open spec fn wf(self) -> bool {
        self.pixels@.len() == 3 * self.width * self.height
    }

    /// The width, the height and the bytes of the raster.
    pub open spec fn content(self) -> (u32, u32, Seq<u8>) {
        (self.width, self.height, self.pixels@)
    }

    /// Tells whether the buffer holds exactly the pixels of the stated size.
    pub fn is_well_formed(&self) -> (r: bool)
        ensures
            r == self.wf(),
    {
        let width: u128 = self.width as u128;
        let height: u128 = self.height as u128;
        proof {
            assert(3 * width * height <= 3 * 0xffff_ffff * 0xffff_ffff) by (nonlinear_arith)
                requires
                    0 <= width <= 0xffff_ffff,
                    0 <= height <= 0xffff_ffff,
            ;
        }
        let expected: u128 = 3 * width * height;
        self.pixels.len() as u128 == expected
    }
}

/// The column and the row of the pixel that byte `k` belongs to lie inside
/// the image.
pub proof fn lemma_pixel_position(k: int, width: int, height: int)
    requires
        0 <= k < 3 * width * height,
        0 < width,
    ensures
        0 <= (k / 3) % width < width,
        0 <= (k / 3) / width < height,
{
    let p = k / 3;
    assert(0 <= p < width * height) by (nonlinear_arith)
        requires
            0 <= k < 3 * width * height,
            p == k / 3,
    ;
    assert(0 <= p / width < height) by (nonlinear_arith)
        requires
            0 <= p < width * height,
            0 < width,
    ;
    assert(0 <= p % width < width) by (nonlinear_arith)
        requires
            0 <= p,
            0 < width,
    ;
}

/// Inside the image a border shows the same whether or not its rectangle is
/// first cut down to the image and the one pixel around it.
proof fn lemma_clamped_border(
    pixels: Seq<u8>,
    width: int,
    height: int,
    left: int,
    top: int,
    right: int,
    bottom: int,
)
    requires
        0 < width,
        0 < height,
        pixels.len() == 3 * width * height,
        left <= right,
        top <= bottom,
    ensures
        painted(pixels, width, left, top, right, bottom, FRAME_RED, FRAME_GREEN, FRAME_BLUE)
            == painted(
            pixels,
            width,
            clamp(left, width),
            clamp(top, height),
            clamp(right, width),
            clamp(bottom, height),
            FRAME_RED,
            FRAME_GREEN,
            FRAME_BLUE,
        ),
{
    let whole = painted(
        pixels,
        width,
        left,
        top,
        right,
        bottom,
        FRAME_RED,
        FRAME_GREEN,
        FRAME_BLUE,
    );
    let cut = painted(
        pixels,
        width,
        clamp(left, width),
        clamp(top, height),
        clamp(right, width),
        clamp(bottom, height),
        FRAME_RED,
        FRAME_GREEN,
        FRAME_BLUE,
    );
    assert forall|k: int| 0 <= k < pixels.len() implies whole[k] == cut[k] by {
        lemma_pixel_position(k, width, height);
    }
    assert(whole =~= cut);
}

/// A coordinate cut down to the range from `-1` to `size`.
pub open spec fn clamp(value: int, size: int) -> int {
    if value < -1 {
        -1
    } else if value > size {
        size
    } else {
        value
    }
}

/// Cuts a coordinate down to the range from `-1` to `size`.
fn clamp_coordinate(value: i64, size: u32) -> (r: i32)
    requires
        size < EXACT_LIMIT,
    ensures
        r == clamp(value as int, size as int),
{
    if value < -1 {
        -1
    } else if value > size as i64 {
        size as i32
    } else {
        value as i32
    }
}

/// Calls `imageproc::drawing::draw_hollow_rect_mut` on the raster, taken as
/// an `image::RgbImage`, with the rectangle
/// `imageproc::rect::Rect::at(left, top).of_size(width, height)`.
///
/// The function draws the four sides as line segments between the corners
/// and sets each of their pixels that lies inside the image. Its coordinates
/// are single-precision numbers, exact up to `EXACT_LIMIT`; hence the bounds
/// on the rectangle. The size of the image does not change.
#[verifier::external_body]
fn draw_hollow_rect(
    raster: &mut Raster,
    left: i32,
    top: i32,
    width: u32,
    height: u32,
    red: u8,
    green: u8,
    blue: u8,
)
    requires
        old(raster).wf(),
        old(raster).width <= i32::MAX,
        old(raster).height <= i32::MAX,
        width > 0,
        height > 0,
        -EXACT_LIMIT <= left,
        left + width <= EXACT_LIMIT,
        -EXACT_LIMIT <= top,
        top + height <= EXACT_LIMIT,
    ensures
        final(raster).width == old(raster).width,
        final(raster).height == old(raster).height,
        final(raster).pixels@ == painted(
            old(raster).pixels@,
            old(raster).width as int,
            left as int,
            top as int,
            left + width - 1,
            top + height - 1,
            red,
            green,
            blue,
        ),
{
    let buffer = std::mem::take(&mut raster.pixels);
    let mut image = image::RgbImage::from_raw(raster.width, raster.height, buffer).unwrap();
    let rect = imageproc::rect::Rect::at(left, top).of_size(width, height);
    imageproc::drawing::draw_hollow_rect_mut(&mut image, rect, image::Rgb([red, green, blue]));
    raster.pixels = image.into_raw();
}

/// Paints the pixel `(x, y)` in the frame colour.
fn paint_pixel(raster: &mut Raster, x: u32, y: u32)
    requires
        old(raster).wf(),
        x < old(raster).width,
        y < old(raster).height,
    ensures
        final(raster).wf(),
        final(raster).width == old(raster).width,
        final(raster).height == old(raster).height,
        final(raster).pixels@ == painted(
            old(raster).pixels@,
            old(raster).width as int,
            x as int,
            y as int,
            x as int,
            y as int,
            FRAME_RED,
            FRAME_GREEN,
            FRAME_BLUE,
        ),
{
    let ghost before = raster.pixels@;
    let ghost w = raster.width as int;
    let ghost h = raster.height as int;
    proof {
        assert(y * w + x < w * h) by (nonlinear_arith)
            requires
                0 <= x < w,
                0 <= y < h,
        ;
        assert(0 <= y * w) by (nonlinear_arith)
            requires
                0 <= y,
                0 <= w,
        ;
        assert(3 * w * h == 3 * (w * h)) by (nonlinear_arith);
        assert(before.len() == raster.pixels.len());
        assert(y * w + x < usize::MAX);
    }
    let p: usize = y as usize * raster.width as usize + x as usize;
    raster.pixels.set(3 * p, FRAME_RED);
    raster.pixels.set(3 * p + 1, FRAME_GREEN);
    raster.pixels.set(3 * p + 2, FRAME_BLUE);
    proof {
        let target = painted(
            before,
            w,
            x as int,
            y as int,
            x as int,
            y as int,
            FRAME_RED,
            FRAME_GREEN,
            FRAME_BLUE,
        );
        assert forall|k: int| 0 <= k < before.len() implies raster.pixels@[k] == target[k] by {
            let q = k / 3;
            if 3 * p <= k < 3 * p + 3 {
                assert(q == p);
                lemma_fundamental_div_mod_converse(p as int, w, y as int, x as int);
            } else {
                assert(q != p);
                if q % w == x && q / w == y {
                    lemma_fundamental_div_mod(q, w);
                    assert(w * y == y * w) by (nonlinear_arith);
                }
            }
        }
        assert(raster.pixels@ =~= target);
    }
}

/// Paints the pixels of row `y` from column `from` to column `to`.
fn paint_row(raster: &mut Raster, y: u32, from: u32, to: u32)
    requires
        old(raster).wf(),
        y < old(raster).height,
        from <= to < old(raster).width,
    ensures
        final(raster).wf(),
        final(raster).width == old(raster).width,
        final(raster).height == old(raster).height,
        final(raster).pixels@ == painted(
            old(raster).pixels@,
            old(raster).width as int,
            from as int,
            y as int,
            to as int,
            y as int,
            FRAME_RED,
            FRAME_GREEN,
            FRAME_BLUE,
        ),
{
    let ghost before = raster.pixels@;
    let ghost w = raster.width as int;
    let mut x: u32 = from;
    proof {
        assert(before =~= painted(
            before,
            w,
            from as int,
            y as int,
            from - 1,
            y as int,
            FRAME_RED,
            FRAME_GREEN,
            FRAME_BLUE,
        ));
    }
    while x <= to
        invariant
            from <= x <= to + 1,
            to < raster.width,
            y < raster.height,
            raster.wf(),
            raster.width == old(raster).width,
            raster.height == old(raster).height,
            w == raster.width,
            raster.pixels@ == painted(
                before,
                w,
                from as int,
                y as int,
                x - 1,
                y as int,
                FRAME_RED,
                FRAME_GREEN,
                FRAME_BLUE,
            ),
        decreases to + 1 - x,
    {
        paint_pixel(raster, x, y);
        proof {
            assert(raster.pixels@ =~= painted(
                before,
                w,
                from as int,
                y as int,
                x as int,
                y as int,
                FRAME_RED,
                FRAME_GREEN,
                FRAME_BLUE,
            ));
        }
        x += 1;
    }
}

/// Paints the pixels of column `x` from row `from` to row `to`.
fn paint_column(raster: &mut Raster, x: u32, from: u32, to: u32)
    requires
        old(raster).wf(),
        x < old(raster).width,
        from <= to < old(raster).height,
    ensures
        final(raster).wf(),
        final(raster).width == old(raster).width,
        final(raster).height == old(raster).height,
        final(raster).pixels@ == painted(
            old(raster).pixels@,
            old(raster).width as int,
            x as int,
            from as int,
            x as int,
            to as int,
            FRAME_RED,
            FRAME_GREEN,
            FRAME_BLUE,
        ),
{
    let ghost before = raster.pixels@;
    let ghost w = raster.width as int;
    let mut y: u32 = from;
    proof {
        assert(before =~= painted(
            before,
            w,
            x as int,
            from as int,
            x as int,
            from - 1,
            FRAME_RED,
            FRAME_GREEN,
            FRAME_BLUE,
        ));
    }
    while y <= to
        invariant
            from <= y <= to + 1,
            to < raster.height,
            x < raster.width,
            raster.wf(),
            raster.width == old(raster).width,
            raster.height == old(raster).height,
            w == raster.width,
            raster.pixels@ == painted(
                before,
                w,
                x as int,
                from as int,
                x as int,
                y - 1,
                FRAME_RED,
                FRAME_GREEN,
                FRAME_BLUE,
            ),
        decreases to + 1 - y,
    {
        paint_pixel(raster, x, y);
        proof {
            assert(raster.pixels@ =~= painted(
                before,
                w,
                x as int,
                from as int,
                x as int,
                y as int,
                FRAME_RED,
                FRAME_GREEN,
                FRAME_BLUE,
            ));
        }
        y += 1;
    }
}

/// The lower end of a range cut down to what is not negative.
pub open spec fn clamp_low(low: int) -> int {
    if low < 0 {
        0
    } else {
        low
    }
}

/// The upper end of a range cut down to what is less than `size`.
pub open spec fn clamp_high(high: int, size: int) -> int {
    if high >= size {
        size - 1
    } else {
        high
    }
}

/// The part of the range from `low` to `high` that lies in `0..size`, if
/// there is any.
fn visible_range(low: i64, high: i64, size: u32) -> (r: Option<(u32, u32)>)
    requires
        size > 0,
    ensures
        match r {
            Some((from, to)) => from <= to < size && from == clamp_low(low as int) && to
                == clamp_high(high as int, size as int),
            None => clamp_low(low as int) > clamp_high(high as int, size as int),
        },
{
    let from: i64 = if low < 0 {
        0
    } else {
        low
    };
    let last: i64 = size as i64 - 1;
    let to: i64 = if high > last {
        last
    } else {
        high
    };
    if from <= to {
        Some((from as u32, to as u32))
    } else {
        None
    }
}

/// Draws the frame of an envelope that has width and height onto an image
/// that has pixels: the visible parts of the top and the bottom row, then
/// those of the left and the right column.
fn paint_frame(raster: &mut Raster, envelope: Envelope)
    requires
        old(raster).wf(),
        old(raster).width > 0,
        old(raster).height > 0,
        envelope.x_min < envelope.x_max,
        envelope.y_min < envelope.y_max,
    ensures
        final(raster).wf(),
        final(raster).width == old(raster).width,
        final(raster).height == old(raster).height,
        final(raster).pixels@ == framed(
            old(raster).pixels@,
            old(raster).width as int,
            envelope,
        ),
{
    let ghost before = raster.pixels@;
    let ghost w = raster.width as int;
    let ghost h = raster.height as int;
    let left: i64 = envelope.x_min as i64;
    let right: i64 = envelope.x_max as i64 - 1;
    let top: i64 = envelope.y_min as i64;
    let bottom: i64 = envelope.y_max as i64 - 1;
    let width: i64 = raster.width as i64;
    let height: i64 = raster.height as i64;
    match visible_range(left, right, raster.width) {
        Some((from, to)) => {
            if 0 <= top && top < height {
                paint_row(raster, top as u32, from, to);
            }
            if 0 <= bottom && bottom < height {
                paint_row(raster, bottom as u32, from, to);
            }
        },
        None => {},
    }
    match visible_range(top, bottom, raster.height) {
        Some((from, to)) => {
            if 0 <= left && left < width {
                paint_column(raster, left as u32, from, to);
            }
            if 0 <= right && right < width {
                paint_column(raster, right as u32, from, to);
            }
        },
        None => {},
    }
    proof {
        let target = framed(before, w, envelope);
        assert forall|k: int| 0 <= k < before.len() implies raster.pixels@[k] == target[k] by {
            lemma_pixel_position(k, w, h);
        }
        assert(raster.pixels@ =~= target);
    }
}

/// Draws the frame of an envelope onto the raster without the drawing
/// primitive, side by side.
///
/// The drawing primitive computes in single precision and places pixels
/// exactly only up to `EXACT_LIMIT`; this function draws the same border on
/// a raster of any size. [`draw_envelope`] turns to it for the images that
/// are too large for the primitive.
pub fn paint_envelope(raster: &mut Raster, envelope: Envelope)
    requires
        old(raster).wf(),
    ensures
        final(raster).wf(),
        final(raster).width == old(raster).width,
        final(raster).height == old(raster).height,
        final(raster).pixels@ == framed(
            old(raster).pixels@,
            old(raster).width as int,
            envelope,
        ),
{
    let ghost before = raster.pixels@;
    let ghost target = framed(before, raster.width as int, envelope);
    if raster.width == 0 || raster.height == 0 {
        proof {
            assert(3 * raster.width * raster.height == 0) by (nonlinear_arith)
                requires
                    raster.width == 0 || raster.height == 0,
            ;
            assert(before =~= target);
        }
        return ;
    }
    if envelope.x_max <= envelope.x_min || envelope.y_max <= envelope.y_min {
        proof {
            assert(before =~= target);
        }
        return ;
    }
    paint_frame(raster, envelope);
}

/// Draws the frame of an envelope onto the raster: the border, one pixel
/// thick and in the frame colour, of the rectangle at `(x_min, y_min)` that is
/// `x_max - x_min` wide and `y_max - y_min` high, as far as it lies inside the
/// image. An envelope without width or height leaves the raster as it is.
///
/// The border is drawn by the drawing primitive wherever that places every
/// pixel exactly, that is, on images of less than `EXACT_LIMIT` pixels a
/// side.
pub fn draw_envelope(raster: &mut Raster, envelope: Envelope)
    requires
        old(raster).wf(),
    ensures
        final(raster).wf(),
        final(raster).width == old(raster).width,
        final(raster).height == old(raster).height,
        final(raster).pixels@ == framed(
            old(raster).pixels@,
            old(raster).width as int,
            envelope,
        ),
{
    let ghost before = raster.pixels@;
    let ghost target = framed(before, raster.width as int, envelope);
    if raster.width == 0 || raster.height == 0 {
        proof {
            assert(3 * raster.width * raster.height == 0) by (nonlinear_arith)
                requires
                    raster.width == 0 || raster.height == 0,
            ;
            assert(before =~= target);
        }
        return ;
    }
    if envelope.x_max <= envelope.x_min || envelope.y_max <= envelope.y_min {
        proof {
            assert(before =~= target);
        }
        return ;
    }
    if raster.width < EXACT_LIMIT as u32 && raster.height < EXACT_LIMIT as u32 {
        let left = clamp_coordinate(envelope.x_min as i64, raster.width);
        let right = clamp_coordinate(envelope.x_max as i64 - 1, raster.width);
        let top = clamp_coordinate(envelope.y_min as i64, raster.height);
        let bottom = clamp_coordinate(envelope.y_max as i64 - 1, raster.height);
        proof {
            lemma_clamped_border(
                before,
                raster.width as int,
                raster.height as int,
                envelope.x_min as int,
                envelope.y_min as int,
                envelope.x_max - 1,
                envelope.y_max - 1,
            );
        }
        draw_hollow_rect(
            raster,
            left,
            top,
            (right - left + 1) as u32,
            (bottom - top + 1) as u32,
            FRAME_RED,
            FRAME_GREEN,
            FRAME_BLUE,
        );
    } else {
        paint_frame(raster, envelope);
    }
}

/// Draws the frames of the envelopes onto the raster, one after the other.
pub fn draw_envelopes(raster: &mut Raster, envelopes: &Vec<Envelope>)
    requires
        old(raster).wf(),
    ensures
        final(raster).wf(),
        final(raster).width == old(raster).width,
        final(raster).height == old(raster).height,
        final(raster).pixels@ == framed_all(
            old(raster).pixels@,
            old(raster).width as int,
            envelopes@,
        ),
{
    let ghost before = raster.pixels@;
    let mut i: usize = 0;
    proof {
        assert(envelopes@.take(0) =~= Seq::empty());
    }
    while i < envelopes.len()
        invariant
            i <= envelopes.len(),
            raster.wf(),
            raster.width == old(raster).width,
            raster.height == old(raster).height,
            raster.pixels@ == framed_all(before, raster.width as int, envelopes@.take(i as int)),
        decreases envelopes.len() - i,
    {
        proof {
            assert(envelopes@.take(i + 1).drop_last() =~= envelopes@.take(i as int));
            assert(envelopes@.take(i + 1).last() == envelopes[i as int]);
        }
        draw_envelope(raster, envelopes[i]);
        i += 1;
    }
    proof {
        assert(envelopes@.take(envelopes.len() as int) =~= envelopes@);
    }
}

} // verus!
