//! One pixel record and the deterministic gradient colour formula.
//!
//! The red channel grows with the column, the green channel with the
//! row, and the blue channel is fixed at a quarter of full intensity.
//! A channel value is `floor(255.999 * pos / (extent - 1))`, computed
//! exactly over the integers as `255999 * pos / (1000 * (extent - 1))`;
//! an extent of one leaves the fraction's denominator zero, and the
//! channel is then defined to be zero.

use vstd::prelude::*;

verus! {

use vstd::arithmetic::div_mod::{
    lemma_div_is_ordered,
    lemma_div_multiples_vanish_fancy,
    lemma_div_pos_is_pos,
};
use vstd::arithmetic::mul::lemma_mul_inequality;

/// The blue channel of every pixel: `floor(255.999 * 0.25)`.
pub const BLUE_LEVEL: u8 = 63;

/// One pixel colour; written to the file as blue, green, red.
pub struct Pixel {
    pub r: u8,
    pub g: u8,
    pub b: u8,
}

impl Pixel {
    /// The default pixel colour before the gradient is applied.
    pub fn new() -> (p: Pixel)
        ensures
            p.r == 92,
            p.g == 107,
            p.b == 192,
    {
        Pixel { b: 192, g: 107, r: 92 }
    }
}

/// The gradient level of a channel at position `pos` out of `extent`
/// samples: `floor(255.999 * pos / (extent - 1))`, and zero when the
/// extent leaves no room for a gradient.
pub open spec fn channel_level(pos: int, extent: int) -> int
    recommends
        0 <= pos < extent,
{
    if extent <= 1 {
        0
    } else {
        255999 * pos / (1000 * (extent - 1))
    }
}

/// A channel level always fits an 8-bit channel: it lies in `[0, 255]`,
/// and the last position of a row or column reaches exactly 255.
pub proof fn lemma_channel_level_bounds(pos: int, extent: int)
    requires
        0 <= pos < extent,
    ensures
        0 <= channel_level(pos, extent) <= 255,
        extent > 1 && pos == extent - 1 ==> channel_level(pos, extent) == 255,
        pos == 0 ==> channel_level(pos, extent) == 0,
{
    if extent > 1 {
        let d = extent - 1;
        let den = 1000 * d;
        assert(0 < d);
        assert(0 < 999 * d && 999 * d < den && den * 255 + 999 * d == 255999 * d)
            by (nonlinear_arith)
            requires
                0 < d,
                den == 1000 * d,
        ;
        lemma_div_multiples_vanish_fancy(255, 999 * d, den);
        assert(255999 * d / den == 255);
        lemma_mul_inequality(pos, d, 255999);
        assert(pos * 255999 == 255999 * pos && d * 255999 == 255999 * d) by (nonlinear_arith);
        lemma_div_is_ordered(255999 * pos, 255999 * d, den);
        if pos > 0 {
            assert(255999 * pos > 0) by (nonlinear_arith)
                requires
                    pos > 0,
            ;
            lemma_div_pos_is_pos(255999 * pos, den);
        }
    }
}

/// Within one row or column the gradient never falls: a channel level is
/// monotonically non-decreasing in its position.
pub proof fn lemma_channel_level_monotonic(pos1: int, pos2: int, extent: int)
    requires
        0 <= pos1 <= pos2 < extent,
    ensures
        channel_level(pos1, extent) <= channel_level(pos2, extent),
{
    if extent > 1 {
        let den = 1000 * (extent - 1);
        assert(0 < den) by (nonlinear_arith)
            requires
                extent > 1,
                den == 1000 * (extent - 1),
        ;
        lemma_mul_inequality(pos1, pos2, 255999);
        assert(pos1 * 255999 == 255999 * pos1 && pos2 * 255999 == 255999 * pos2)
            by (nonlinear_arith);
        lemma_div_is_ordered(255999 * pos1, 255999 * pos2, den);
    }
}

/// Computes the gradient level of one channel.
pub fn gradient_channel(pos: u32, extent: u32) -> (level: u8)
    requires
        pos < extent,
        extent <= i32::MAX,
    ensures
        level as int == channel_level(pos as int, extent as int),
{
    proof {
        lemma_channel_level_bounds(pos as int, extent as int);
    }
    if extent <= 1 {
        0
    } else {
        (255999u64 * (pos as u64) / (1000u64 * ((extent - 1) as u64))) as u8
    }
}

/// Computes the gradient pixel at column `col` of row `row` in a
/// `width` by `height` image.
pub fn gradient_pixel(col: u32, row: u32, width: u32, height: u32) -> (p: Pixel)
    requires
        col < width,
        row < height,
        width <= i32::MAX,
        height <= i32::MAX,
    ensures
        p.r as int == channel_level(col as int, width as int),
        p.g as int == channel_level(row as int, height as int),
        p.b == BLUE_LEVEL,
{
    let mut p = Pixel::new();
    p.r = gradient_channel(col, width);
    p.g = gradient_channel(row, height);
    p.b = BLUE_LEVEL;
    p
}

/// The byte image of one pixel record: blue, green, red.
pub open spec fn pixel_bytes(p: Pixel) -> Seq<u8> {
    seq![p.b, p.g, p.r]
}

/// The byte image of the gradient pixel at column `col` of row `row`.
pub open spec fn gradient_pixel_bytes(col: int, row: int, width: int, height: int) -> Seq<u8>
    recommends
        0 <= col < width,
        0 <= row < height,
{
    seq![
        BLUE_LEVEL,
        channel_level(row, height) as u8,
        channel_level(col, width) as u8,
    ]
}

/// Appends the three bytes of one pixel record to `buf`, blue first.
pub fn encode_pixel(p: &Pixel, buf: &mut Vec<u8>)
    ensures
        final(buf)@ == old(buf)@ + pixel_bytes(*p),
{
    buf.push(p.b);
    buf.push(p.g);
    buf.push(p.r);
    proof {
        assert(buf@ =~= old(buf)@ + pixel_bytes(*p));
    }
}

} // verus!
