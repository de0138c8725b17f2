//! Colours of eight bits per channel.

use crate::scalar::{quotient, Scalar, SCALE};
use vstd::prelude::*;

verus! {

/// A colour by its red, green and blue channels.
#[derive(Clone, Copy, PartialEq, Eq, Structural, Debug)]
pub struct Color {
    pub r: u8,
    pub g: u8,
    pub b: u8,
}

/// The channel value nearest to `x`.
pub open spec fn clamp_channel(x: int) -> u8 {
    if x < 0 {
        0
    } else if x > 255 {
        255
    } else {
        x as u8
    }
}

/// A channel multiplied by `factor`: the fraction is dropped, and the result
/// is held within the channel's range.
pub open spec fn channel_scaled(c: u8, factor: Scalar) -> u8 {
    clamp_channel(quotient(c * factor.raw, SCALE as int))
}

/// The sum of two channels, held within the channel's range.
pub open spec fn channel_sum(a: u8, b: u8) -> u8 {
    clamp_channel(a + b)
}

/// A colour scaled by one is itself.
pub proof fn lemma_scaled_by_one(c: Color)
    ensures
        c.scaled(Scalar { raw: SCALE }) == c,
{
    let one = Scalar { raw: SCALE };
    assert(c.r * one.raw == c.r * 1_000_000);
    assert(c.g * one.raw == c.g * 1_000_000);
    assert(c.b * one.raw == c.b * 1_000_000);
}

/// A colour scaled by zero or less is black.
pub proof fn lemma_scaled_by_nothing(c: Color, factor: Scalar)
    requires
        factor.raw <= 0,
    ensures
        c.scaled(factor) == (Color { r: 0, g: 0, b: 0 }),
{
    assert(c.r * factor.raw <= 0 && c.g * factor.raw <= 0 && c.b * factor.raw <= 0)
        by (nonlinear_arith)
        requires
            factor.raw <= 0,
    ;
}

/// Black added to a colour leaves the colour as it is.
pub proof fn lemma_sum_with_black(c: Color)
    ensures
        c.sum(Color { r: 0, g: 0, b: 0 }) == c,
{
}

fn scale_channel(c: u8, factor: Scalar) -> (r: u8)
    ensures
        r == channel_scaled(c, factor),
{
    let f: i128 = factor.raw as i128;
    let m: i128 = if f < 0 {
        -f
    } else {
        f
    };
    assert(0 <= c * m <= 255 * 0x8000_0000_0000_0000 && (f < 0 ==> c * f == -(c * m))) by (nonlinear_arith)
        requires
            0 <= c <= 255,
            0 <= m <= 0x8000_0000_0000_0000,
            f < 0 ==> m == -f,
    ;
    let p: i128 = (c as i128 * m) / 1_000_000;
    let q: i128 = if f < 0 {
        -p
    } else {
        p
    };
    if q < 0 {
        0
    } else if q > 255 {
        255
    } else {
        q as u8
    }
}

fn add_channel(a: u8, b: u8) -> (r: u8)
    ensures
        r == channel_sum(a, b),
{
    let s: u16 = a as u16 + b as u16;
    if s > 255 {
        255
    } else {
        s as u8
    }
}

impl Color {
    /// Every channel multiplied by `factor`.
    pub open spec fn scaled(self, factor: Scalar) -> Color {
        Color {
            r: channel_scaled(self.r, factor),
            g: channel_scaled(self.g, factor),
            b: channel_scaled(self.b, factor),
        }
    }

    /// The sum, channel by channel.
    pub open spec fn sum(self, other: Color) -> Color {
        Color {
            r: channel_sum(self.r, other.r),
            g: channel_sum(self.g, other.g),
            b: channel_sum(self.b, other.b),
        }
    }

    /// The colour of the given channels.
    pub fn new(r: u8, g: u8, b: u8) -> (c: Color)
        ensures
            c == (Color { r, g, b }),
    {
        Color { r, g, b }
    }

    /// Black: the colour of a ray that meets nothing.
    pub fn black() -> (c: Color)
        ensures
            c == (Color { r: 0, g: 0, b: 0 }),
    {
        Color { r: 0, g: 0, b: 0 }
    }

    /// Whether all three channels are zero.
    pub fn is_black(&self) -> (black: bool)
        ensures
            black <==> self.r == 0 && self.g == 0 && self.b == 0,
    {
        self.r == 0 && self.g == 0 && self.b == 0
    }
}

/// `*` on a colour and a scalar: every channel multiplied, the fraction
/// dropped, and the result held within the channel's range.
impl core::ops::Mul<Scalar> for Color {
    type Output = Color;

    fn mul(self, num: Scalar) -> (c: Color)
        ensures
            c == self.scaled(num),
    {
        Color {
            r: scale_channel(self.r, num),
            g: scale_channel(self.g, num),
            b: scale_channel(self.b, num),
        }
    }
}

impl vstd::std_specs::ops::MulSpecImpl<Scalar> for Color {
    open spec fn obeys_mul_spec() -> bool {
        true
    }

    open spec fn mul_req(self, num: Scalar) -> bool {
        true
    }

    open spec fn mul_spec(self, num: Scalar) -> Color {
        self.scaled(num)
    }
}

/// `+` on colours: the sum of each channel, at most 255.
impl core::ops::Add<Color> for Color {
    type Output = Color;

    fn add(self, color: Color) -> (c: Color)
        ensures
            c == self.sum(color),
    {
        Color {
            r: add_channel(self.r, color.r),
            g: add_channel(self.g, color.g),
            b: add_channel(self.b, color.b),
        }
    }
}

impl vstd::std_specs::ops::AddSpecImpl<Color> for Color {
    open spec fn obeys_add_spec() -> bool {
        true
    }

    open spec fn add_req(self, color: Color) -> bool {
        true
    }

    open spec fn add_spec(self, color: Color) -> Color {
        self.sum(color)
    }
}

} // verus!
