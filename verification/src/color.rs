//! RGBA colors with straight-alpha compositing.

use crate::text::{hex_byte_text, push_hex_byte};
use vstd::prelude::*;
use vstd::string::StringExecFns;

verus! {

/// A color with four 8-bit channels; `a` is straight (not premultiplied) alpha.
#[derive(Debug, Clone, Copy, PartialEq, Eq, Structural)]
pub struct Color {
    pub r: u8,
    pub g: u8,
    pub b: u8,
    pub a: u8,
}

impl Color {
    /// Channel `k` of the color in byte order: red, green, blue, alpha.
    pub open spec fn channel(self, k: int) -> u8 {
        if k == 0 {
            self.r
        } else if k == 1 {
            self.g
        } else if k == 2 {
            self.b
        } else {
            self.a
        }
    }

    /// The four channel bytes in buffer order.
    pub open spec fn bytes(self) -> Seq<u8> {
        seq![self.r, self.g, self.b, self.a]
    }

    pub fn new(r: u8, g: u8, b: u8, a: u8) -> (color: Color)
        ensures
            color == (Color { r, g, b, a }),
    {
        Color { r, g, b, a }
    }

    pub fn to_rgba(&self) -> (rgba: [u8; 4])
        ensures
            rgba@ == self.bytes(),
    {
        let rgba = [self.r, self.g, self.b, self.a];
        assert(rgba@ =~= self.bytes());
        rgba
    }
}

/// The interpolation weight that stands for one, in units of `1 / 65536`.
pub const WEIGHT_ONE: i32 = 65536;

/// One channel of `top` composited over `under` with straight alpha
/// `alpha / 255`: `top * (alpha / 255) + under * (1 - alpha / 255)`, computed
/// exactly and truncated.
pub open spec fn blend_channel(top: u8, under: u8, alpha: u8) -> u8 {
    ((top * alpha + under * (255 - alpha)) / 255) as u8
}

/// The weight `t`, in units of `1 / 65536`, clamped to `[0, 1]`.
pub open spec fn clamp_weight(t: int) -> int {
    if t < 0 {
        0
    } else if t > 65536 {
        65536
    } else {
        t
    }
}

/// One channel interpolated from `from` to `to` with the clamped weight `t`:
/// `from + (to - from) * t`, computed exactly and truncated.
pub open spec fn lerp_channel(from: u8, to: u8, t: int) -> u8 {
    ((from * 65536 + (to - from) * clamp_weight(t)) / 65536) as u8
}

/// A composited channel lies between the two channels it is made of.
pub proof fn lemma_blend_channel_bounds(top: u8, under: u8, alpha: u8)
    ensures
        0 <= (top * alpha + under * (255 - alpha)) / 255 <= 255,
        top <= under ==> top <= blend_channel(top, under, alpha) <= under,
        under <= top ==> under <= blend_channel(top, under, alpha) <= top,
{
    let sum = top * alpha + under * (255 - alpha);
    assert(0 <= sum <= 255 * 255) by (nonlinear_arith)
        requires
            sum == top * alpha + under * (255 - alpha),
            0 <= top <= 255,
            0 <= under <= 255,
            0 <= alpha <= 255,
    ;
    if top <= under {
        assert(top * 255 <= sum <= under * 255) by (nonlinear_arith)
            requires
                sum == top * alpha + under * (255 - alpha),
                0 <= top <= under,
                0 <= alpha <= 255,
        ;
    }
    if under <= top {
        assert(under * 255 <= sum <= top * 255) by (nonlinear_arith)
            requires
                sum == top * alpha + under * (255 - alpha),
                0 <= under <= top,
                0 <= alpha <= 255,
        ;
    }
}

/// An interpolated channel lies between the two channels it is made of.
pub proof fn lemma_lerp_channel_bounds(from: u8, to: u8, t: int)
    ensures
        0 <= (from * 65536 + (to - from) * clamp_weight(t)) / 65536 <= 255,
        from <= to ==> from <= lerp_channel(from, to, t) <= to,
        to <= from ==> to <= lerp_channel(from, to, t) <= from,
{
    let w = clamp_weight(t);
    let sum = from * 65536 + (to - from) * w;
    if from <= to {
        assert(from * 65536 <= sum <= to * 65536) by (nonlinear_arith)
            requires
                sum == from * 65536 + (to - from) * w,
                0 <= from <= to,
                0 <= w <= 65536,
        ;
    }
    if to <= from {
        assert(to * 65536 <= sum <= from * 65536) by (nonlinear_arith)
            requires
                sum == from * 65536 + (to - from) * w,
                0 <= to <= from,
                0 <= w <= 65536,
        ;
    }
}

/// One composited channel.
fn blend_byte(top: u8, under: u8, alpha: u8) -> (out: u8)
    ensures
        out == blend_channel(top, under, alpha),
{
    proof {
        lemma_blend_channel_bounds(top, under, alpha);
        assert(0 <= top * alpha <= 255 * 255) by (nonlinear_arith)
            requires
                0 <= top <= 255,
                0 <= alpha <= 255,
        ;
        assert(0 <= under * (255 - alpha) <= 255 * 255) by (nonlinear_arith)
            requires
                0 <= under <= 255,
                0 <= alpha <= 255,
        ;
    }
    let sum: u32 = (top as u32) * (alpha as u32) + (under as u32) * ((255 - alpha) as u32);
    (sum / 255) as u8
}

/// One interpolated channel.
fn lerp_byte(from: u8, to: u8, t: i32) -> (out: u8)
    ensures
        out == lerp_channel(from, to, t as int),
{
    let w: i64 = if t < 0 {
        0
    } else if t > 65536 {
        65536
    } else {
        t as i64
    };
    proof {
        lemma_lerp_channel_bounds(from, to, t as int);
        assert(-255 * 65536 <= (to - from) * w <= 255 * 65536) by (nonlinear_arith)
            requires
                -255 <= to - from <= 255,
                0 <= w <= 65536,
        ;
    }
    let sum: i64 = (from as i64) * 65536 + ((to as i64) - (from as i64)) * w;
    (sum / 65536) as u8
}

impl Color {
    /// This color composited over `under`, channel by channel, alpha included.
    pub open spec fn blended(self, under: Color) -> Color {
        Color {
            r: blend_channel(self.r, under.r, self.a),
            g: blend_channel(self.g, under.g, self.a),
            b: blend_channel(self.b, under.b, self.a),
            a: blend_channel(self.a, under.a, self.a),
        }
    }

    /// The color on the way from this color to `other` at the weight `t`, in
    /// units of `1 / 65536` and clamped to `[0, 1]`.
    pub open spec fn lerped(self, other: Color, t: int) -> Color {
        Color {
            r: lerp_channel(self.r, other.r, t),
            g: lerp_channel(self.g, other.g, t),
            b: lerp_channel(self.b, other.b, t),
            a: lerp_channel(self.a, other.a, t),
        }
    }

    /// `#RRGGBBAA` in upper-case hexadecimal digits.
    pub open spec fn hex_text(self) -> Seq<char> {
        seq!['#'] + hex_byte_text(self.r) + hex_byte_text(self.g) + hex_byte_text(self.b)
            + hex_byte_text(self.a)
    }

    /// `#RRGGBB` in upper-case hexadecimal digits.
    pub open spec fn rgb_hex_text(self) -> Seq<char> {
        seq!['#'] + hex_byte_text(self.r) + hex_byte_text(self.g) + hex_byte_text(self.b)
    }

    pub fn to_hex(&self) -> (text: String)
        ensures
            text@ == self.hex_text(),
    {
        proof {
            reveal_strlit("#");
        }
        let mut text = String::from_str("#");
        assert(text@ =~= seq!['#']);
        push_hex_byte(&mut text, self.r);
        push_hex_byte(&mut text, self.g);
        push_hex_byte(&mut text, self.b);
        push_hex_byte(&mut text, self.a);
        text
    }

    pub fn to_rgb_hex(&self) -> (text: String)
        ensures
            text@ == self.rgb_hex_text(),
    {
        proof {
            reveal_strlit("#");
        }
        let mut text = String::from_str("#");
        assert(text@ =~= seq!['#']);
        push_hex_byte(&mut text, self.r);
        push_hex_byte(&mut text, self.g);
        push_hex_byte(&mut text, self.b);
        text
    }

    /// Composites this color over `other` with straight alpha; every
    /// channel is truncated, not rounded.
    pub fn blend(&self, other: &Color) -> (out: Color)
        ensures
            out == self.blended(*other),
    {
        Color {
            r: blend_byte(self.r, other.r, self.a),
            g: blend_byte(self.g, other.g, self.a),
            b: blend_byte(self.b, other.b, self.a),
            a: blend_byte(self.a, other.a, self.a),
        }
    }

    /// Interpolates from this color to `other`. The weight `t` is a
    /// fixed-point number in units of `1 / 65536`, so [`WEIGHT_ONE`] stands
    /// for one; it is clamped to `[0, 1]`. Every channel is truncated, not
    /// rounded.
    pub fn lerp(&self, other: &Color, t: i32) -> (out: Color)
        ensures
            out == self.lerped(*other, t as int),
    {
        Color {
            r: lerp_byte(self.r, other.r, t),
            g: lerp_byte(self.g, other.g, t),
            b: lerp_byte(self.b, other.b, t),
            a: lerp_byte(self.a, other.a, t),
        }
    }
}

/// A channel under full alpha is the top channel, under no alpha the lower one.
proof fn lemma_blend_channel_extremes(top: u8, under: u8)
    ensures
        blend_channel(top, under, 255) == top,
        blend_channel(top, under, 0) == under,
{
    assert((top * 255 + under * (255 - 255)) / 255 == top);
    assert((top * 0 + under * (255 - 0)) / 255 == under);
}

/// A channel at a weight of at most zero is the first channel, at a weight
/// of at least one the second.
proof fn lemma_lerp_channel_ends(from: u8, to: u8, t: int)
    ensures
        t <= 0 ==> lerp_channel(from, to, t) == from,
        t >= 65536 ==> lerp_channel(from, to, t) == to,
{
    if t <= 0 {
        assert(clamp_weight(t) == 0);
        assert((from * 65536 + (to - from) * 0) / 65536 == from);
    }
    if t >= 65536 {
        assert(clamp_weight(t) == 65536);
        assert((from * 65536 + (to - from) * 65536) / 65536 == to);
    }
}

/// A fully opaque color composited over itself is that color.
pub proof fn lemma_opaque_self_blend(c: Color)
    requires
        c.a == 255,
    ensures
        c.blended(c) == c,
{
    lemma_self_blend(c);
}

/// Any color composited over itself is that color.
pub proof fn lemma_self_blend(c: Color)
    ensures
        c.blended(c) == c,
{
    lemma_blend_channel_bounds(c.r, c.r, c.a);
    lemma_blend_channel_bounds(c.g, c.g, c.a);
    lemma_blend_channel_bounds(c.b, c.b, c.a);
    lemma_blend_channel_bounds(c.a, c.a, c.a);
}

/// A fully opaque color covers what lies under it, and a fully transparent
/// color lets the lower color through.
pub proof fn lemma_blend_extremes(top: Color, under: Color)
    ensures
        top.a == 255 ==> top.blended(under) == top,
        top.a == 0 ==> top.blended(under) == under,
{
    lemma_blend_channel_extremes(top.r, under.r);
    lemma_blend_channel_extremes(top.g, under.g);
    lemma_blend_channel_extremes(top.b, under.b);
    lemma_blend_channel_extremes(top.a, under.a);
}

/// Interpolation starts at the first color and ends at the second: the
/// weight zero gives the first color, the weight one the second, and so
/// does every weight below zero or above one.
pub proof fn lemma_lerp_ends(a: Color, b: Color, t: int)
    ensures
        a.lerped(b, 0) == a,
        a.lerped(b, WEIGHT_ONE as int) == b,
        t <= 0 ==> a.lerped(b, t) == a,
        t >= WEIGHT_ONE ==> a.lerped(b, t) == b,
{
    lemma_lerp_channel_ends(a.r, b.r, 0);
    lemma_lerp_channel_ends(a.g, b.g, 0);
    lemma_lerp_channel_ends(a.b, b.b, 0);
    lemma_lerp_channel_ends(a.a, b.a, 0);
    lemma_lerp_channel_ends(a.r, b.r, 65536);
    lemma_lerp_channel_ends(a.g, b.g, 65536);
    lemma_lerp_channel_ends(a.b, b.b, 65536);
    lemma_lerp_channel_ends(a.a, b.a, 65536);
    lemma_lerp_channel_ends(a.r, b.r, t);
    lemma_lerp_channel_ends(a.g, b.g, t);
    lemma_lerp_channel_ends(a.b, b.b, t);
    lemma_lerp_channel_ends(a.a, b.a, t);
}

pub fn create_color(r: u8, g: u8, b: u8, a: u8) -> (color: Color)
    ensures
        color == (Color { r, g, b, a }),
{
    Color::new(r, g, b, a)
}

pub fn color_red() -> (color: Color)
    ensures
        color == (Color { r: 255, g: 0, b: 0, a: 255 }),
{
    Color { r: 255, g: 0, b: 0, a: 255 }
}

pub fn color_green() -> (color: Color)
    ensures
        color == (Color { r: 0, g: 255, b: 0, a: 255 }),
{
    Color { r: 0, g: 255, b: 0, a: 255 }
}

pub fn color_blue() -> (color: Color)
    ensures
        color == (Color { r: 0, g: 0, b: 255, a: 255 }),
{
    Color { r: 0, g: 0, b: 255, a: 255 }
}

pub fn color_black() -> (color: Color)
    ensures
        color == (Color { r: 0, g: 0, b: 0, a: 255 }),
{
    Color { r: 0, g: 0, b: 0, a: 255 }
}

pub fn color_white() -> (color: Color)
    ensures
        color == (Color { r: 255, g: 255, b: 255, a: 255 }),
{
    Color { r: 255, g: 255, b: 255, a: 255 }
}

pub fn color_yellow() -> (color: Color)
    ensures
        color == (Color { r: 255, g: 255, b: 0, a: 255 }),
{
    Color { r: 255, g: 255, b: 0, a: 255 }
}

pub fn color_cyan() -> (color: Color)
    ensures
        color == (Color { r: 0, g: 255, b: 255, a: 255 }),
{
    Color { r: 0, g: 255, b: 255, a: 255 }
}

pub fn color_magenta() -> (color: Color)
    ensures
        color == (Color { r: 255, g: 0, b: 255, a: 255 }),
{
    Color { r: 255, g: 0, b: 255, a: 255 }
}

pub fn color_gray() -> (color: Color)
    ensures
        color == (Color { r: 128, g: 128, b: 128, a: 255 }),
{
    Color { r: 128, g: 128, b: 128, a: 255 }
}

pub fn color_dark_gray() -> (color: Color)
    ensures
        color == (Color { r: 64, g: 64, b: 64, a: 255 }),
{
    Color { r: 64, g: 64, b: 64, a: 255 }
}

pub fn color_light_gray() -> (color: Color)
    ensures
        color == (Color { r: 192, g: 192, b: 192, a: 255 }),
{
    Color { r: 192, g: 192, b: 192, a: 255 }
}

pub fn color_orange() -> (color: Color)
    ensures
        color == (Color { r: 255, g: 165, b: 0, a: 255 }),
{
    Color { r: 255, g: 165, b: 0, a: 255 }
}

pub fn color_pink() -> (color: Color)
    ensures
        color == (Color { r: 255, g: 192, b: 203, a: 255 }),
{
    Color { r: 255, g: 192, b: 203, a: 255 }
}

pub fn color_transparent() -> (color: Color)
    ensures
        color == (Color { r: 0, g: 0, b: 0, a: 0 }),
{
    Color { r: 0, g: 0, b: 0, a: 0 }
}

/// The four channel bytes of `color` in buffer order.
pub fn color_to_rgba(color: Color) -> (rgba: Vec<u8>)
    ensures
        rgba@ == color.bytes(),
{
    let mut rgba: Vec<u8> = Vec::new();
    rgba.push(color.r);
    rgba.push(color.g);
    rgba.push(color.b);
    rgba.push(color.a);
    assert(rgba@ =~= color.bytes());
    rgba
}

pub fn color_to_hex(color: Color) -> (text: String)
    ensures
        text@ == color.hex_text(),
{
    color.to_hex()
}

pub fn color_to_rgb_hex(color: Color) -> (text: String)
    ensures
        text@ == color.rgb_hex_text(),
{
    color.to_rgb_hex()
}

/// `foreground` composited over `background`.
pub fn blend_colors(foreground: Color, background: Color) -> (out: Color)
    ensures
        out == foreground.blended(background),
{
    foreground.blend(&background)
}

/// The color on the way from `color1` to `color2` at the weight `t`, in
/// units of `1 / 65536`.
pub fn lerp_colors(color1: Color, color2: Color, t: i32) -> (out: Color)
    ensures
        out == color1.lerped(color2, t as int),
{
    color1.lerp(&color2, t)
}

} // verus!
