//! Shared geometry, color and interpolation primitives, and the widget and
//! scene machinery built on them.

pub mod buttons;
pub mod covers;
pub mod scenes;

pub use buttons::{Button, ButtonStyle, States};
pub use covers::{Cover, CoverBook};
pub use scenes::{AsScene, SceneCommand, SceneManager};

use vstd::prelude::*;

verus! {

/// Saturation bound of the integer coordinate space. Every widget coordinate
/// stays within `[-COORD_LIMIT, COORD_LIMIT]`; interpolation results that
/// would leave this range are clamped to it.
pub const COORD_LIMIT: i64 = 2147483648;

/// An interpolation fraction is stored in units of `1/FRACTION_ONE`, so
/// `FRACTION_ONE` itself stands for the fraction 1.0. Transitions advance
/// the fraction by one unit per elapsed millisecond, which is the 0.5-per-
/// second rate over a denominator of 2000.
pub const FRACTION_ONE: u32 = 2000;

/// A 2D point or extent in integer window coordinates.
#[derive(Clone, Copy, PartialEq, Eq, Structural, Debug)]
pub struct Vector2 {
    pub x: i64,
    pub y: i64,
}

/// An 8-bit-per-channel RGBA color.
#[derive(Clone, Copy, PartialEq, Eq, Structural, Debug)]
pub struct Color {
    pub r: u8,
    pub g: u8,
    pub b: u8,
    pub a: u8,
}

/// An axis-aligned rectangle in integer window coordinates.
#[derive(Clone, Copy, PartialEq, Eq, Structural, Debug)]
pub struct Rectangle {
    pub x: i64,
    pub y: i64,
    pub width: i64,
    pub height: i64,
}

/// A coordinate halved, truncating toward zero.
pub open spec fn spec_half(v: int) -> int {
    if v >= 0 {
        v / 2
    } else {
        -((-v) / 2)
    }
}

/// A coordinate halved, truncating toward zero.
pub fn half_coord(v: i64) -> (r: i64)
    requires
        -1000000000000000000 <= v <= 1000000000000000000,
    ensures
        r == spec_half(v as int),
{
    if v >= 0 {
        ((v as u64) / 2) as i64
    } else {
        -((((-v) as u64) / 2) as i64)
    }
}

impl Vector2 {
    /// True when both coordinates lie within the coordinate space.
    pub open spec fn in_range(self) -> bool {
        &&& -COORD_LIMIT <= self.x <= COORD_LIMIT
        &&& -COORD_LIMIT <= self.y <= COORD_LIMIT
    }

    pub fn new(x: i64, y: i64) -> (v: Vector2)
        ensures
            v == (Vector2 { x, y }),
    {
        Vector2 { x, y }
    }

    pub fn zero() -> (v: Vector2)
        ensures
            v == (Vector2 { x: 0, y: 0 }),
    {
        Vector2 { x: 0, y: 0 }
    }
}

impl Color {
    pub fn new(r: u8, g: u8, b: u8, a: u8) -> (c: Color)
        ensures
            c == (Color { r, g, b, a }),
    {
        Color { r, g, b, a }
    }

    pub fn black() -> (c: Color)
        ensures
            c == (Color { r: 0, g: 0, b: 0, a: 255 }),
    {
        Color { r: 0, g: 0, b: 0, a: 255 }
    }

    pub fn white() -> (c: Color)
        ensures
            c == (Color { r: 255, g: 255, b: 255, a: 255 }),
    {
        Color { r: 255, g: 255, b: 255, a: 255 }
    }

    pub fn raywhite() -> (c: Color)
        ensures
            c == (Color { r: 245, g: 245, b: 245, a: 255 }),
    {
        Color { r: 245, g: 245, b: 245, a: 255 }
    }

    pub fn lightgray() -> (c: Color)
        ensures
            c == (Color { r: 200, g: 200, b: 200, a: 255 }),
    {
        Color { r: 200, g: 200, b: 200, a: 255 }
    }

    pub fn gray() -> (c: Color)
        ensures
            c == (Color { r: 130, g: 130, b: 130, a: 255 }),
    {
        Color { r: 130, g: 130, b: 130, a: 255 }
    }

    pub fn red() -> (c: Color)
        ensures
            c == (Color { r: 230, g: 41, b: 55, a: 255 }),
    {
        Color { r: 230, g: 41, b: 55, a: 255 }
    }

    pub fn blue() -> (c: Color)
        ensures
            c == (Color { r: 0, g: 121, b: 241, a: 255 }),
    {
        Color { r: 0, g: 121, b: 241, a: 255 }
    }

    pub fn darkblue() -> (c: Color)
        ensures
            c == (Color { r: 0, g: 82, b: 172, a: 255 }),
    {
        Color { r: 0, g: 82, b: 172, a: 255 }
    }

    pub fn darkpurple() -> (c: Color)
        ensures
            c == (Color { r: 112, g: 31, b: 126, a: 255 }),
    {
        Color { r: 112, g: 31, b: 126, a: 255 }
    }
}

/// A coordinate clamped into the coordinate space.
pub open spec fn clamp_coord(v: int) -> int {
    if v > COORD_LIMIT as int {
        COORD_LIMIT as int
    } else if v < -(COORD_LIMIT as int) {
        -(COORD_LIMIT as int)
    } else {
        v
    }
}

/// A coordinate clamped into the coordinate space.
pub fn clamp_to_limit(v: i64) -> (r: i64)
    requires
        -2 * COORD_LIMIT <= v <= 2 * COORD_LIMIT,
    ensures
        r == clamp_coord(v as int),
{
    if v > COORD_LIMIT {
        COORD_LIMIT
    } else if v < -COORD_LIMIT {
        -COORD_LIMIT
    } else {
        v
    }
}

/// The interpolation step applied to the difference `diff` of two
/// coordinates: `diff` scaled by `fraction / FRACTION_ONE`, with the
/// division truncated toward zero.
pub open spec fn scale_diff(diff: int, fraction: int) -> int {
    if diff >= 0 {
        (diff * fraction) / (FRACTION_ONE as int)
    } else {
        -((-diff * fraction) / (FRACTION_ONE as int))
    }
}

/// One interpolated coordinate: the source moved by the scaled difference
/// `source - target`, clamped into the coordinate space. This is the blend
/// `source + (source - target) * t`, not the conventional
/// `source + (target - source) * t`: as the fraction grows the value moves
/// away from the target, and only the exact-boundary short-circuits of
/// [`spec_interpolate_vectors`] return the target itself.
pub open spec fn spec_lerp_coord(source: int, target: int, fraction: int) -> int {
    clamp_coord(source + scale_diff(source - target, fraction))
}

/// What [`interpolate_vectors`] returns: the boundary fractions and equal
/// endpoints are returned exactly; everything else blends coordinate-wise.
pub open spec fn spec_interpolate_vectors(source: Vector2, target: Vector2, fraction: u32) -> Vector2 {
    if fraction == FRACTION_ONE {
        target
    } else if fraction == 0 {
        source
    } else if source == target {
        source
    } else {
        Vector2 {
            x: spec_lerp_coord(source.x as int, target.x as int, fraction as int) as i64,
            y: spec_lerp_coord(source.y as int, target.y as int, fraction as int) as i64,
        }
    }
}

/// One interpolated color channel: the same reversed blend as
/// [`spec_lerp_coord`], truncated and clamped into the 8-bit channel range.
pub open spec fn spec_lerp_channel(source: u8, target: u8, fraction: u32) -> u8 {
    let s = source as int;
    let t = target as int;
    let f = fraction as int;
    if s >= t {
        let v = s + ((s - t) * f) / (FRACTION_ONE as int);
        if v > 255 {
            255u8
        } else {
            v as u8
        }
    } else {
        let v = s - ((t - s) * f) / (FRACTION_ONE as int);
        if v < 0 {
            0u8
        } else {
            v as u8
        }
    }
}

/// What [`interpolate_colors`] returns: boundary fractions and equal colors
/// are returned exactly; everything else blends channel-wise.
pub open spec fn spec_interpolate_colors(source: Color, target: Color, fraction: u32) -> Color {
    if fraction == FRACTION_ONE {
        target
    } else if fraction == 0 {
        source
    } else if source == target {
        source
    } else {
        Color {
            r: spec_lerp_channel(source.r, target.r, fraction),
            g: spec_lerp_channel(source.g, target.g, fraction),
            b: spec_lerp_channel(source.b, target.b, fraction),
            a: spec_lerp_channel(source.a, target.a, fraction),
        }
    }
}

/// A magnitude scaled by a fraction of `FRACTION_ONE` stays between zero
/// and the magnitude itself.
proof fn lemma_scale_bounds(m: int, f: int)
    requires
        0 <= m,
        0 <= f <= FRACTION_ONE as int,
    ensures
        0 <= m * f <= m * (FRACTION_ONE as int),
        0 <= (m * f) / (FRACTION_ONE as int) <= m,
{
    let d = FRACTION_ONE as int;
    assert(0 <= m * f <= d * m) by (nonlinear_arith)
        requires
            0 <= m,
            0 <= f <= d,
        ;
    vstd::arithmetic::div_mod::lemma_multiply_divide_le(m * f, d, m);
    vstd::arithmetic::div_mod::lemma_div_pos_is_pos(m * f, d);
}

/// One blended coordinate, computed with unsigned magnitudes so that the
/// truncated division matches [`spec_lerp_coord`] exactly.
fn lerp_coord(source: i64, target: i64, fraction: u32) -> (r: i64)
    requires
        -COORD_LIMIT <= source <= COORD_LIMIT,
        -COORD_LIMIT <= target <= COORD_LIMIT,
        fraction <= FRACTION_ONE,
    ensures
        r == spec_lerp_coord(source as int, target as int, fraction as int),
        -COORD_LIMIT <= r <= COORD_LIMIT,
{
    let source_above = source >= target;
    let mag: u64 = if source_above {
        (source - target) as u64
    } else {
        (target - source) as u64
    };
    proof {
        lemma_scale_bounds(mag as int, fraction as int);
    }
    let scaled: u64 = mag * (fraction as u64) / (FRACTION_ONE as u64);
    let delta: i64 = scaled as i64;
    let v: i64 = if source_above {
        source + delta
    } else {
        source - delta
    };
    if v > COORD_LIMIT {
        COORD_LIMIT
    } else if v < -COORD_LIMIT {
        -COORD_LIMIT
    } else {
        v
    }
}

/// Blends two 2D vectors by `fraction / FRACTION_ONE`.
///
/// The boundary fractions return an endpoint exactly, equal endpoints are
/// returned unchanged, and every other fraction applies the reversed blend
/// `source + (source - target) * t` coordinate-wise, clamped into the
/// coordinate space.
pub fn interpolate_vectors(source: Vector2, target: Vector2, fraction: u32) -> (result: Vector2)
    requires
        source.in_range(),
        target.in_range(),
        fraction <= FRACTION_ONE,
    ensures
        result == spec_interpolate_vectors(source, target, fraction),
        result.in_range(),
{
    if fraction == FRACTION_ONE {
        return target;
    }
    if fraction == 0 {
        return source;
    }
    if source == target {
        return source;
    }
    Vector2 {
        x: lerp_coord(source.x, target.x, fraction),
        y: lerp_coord(source.y, target.y, fraction),
    }
}

/// One blended color channel, matching [`spec_lerp_channel`].
fn lerp_channel(source: u8, target: u8, fraction: u32) -> (r: u8)
    requires
        fraction <= FRACTION_ONE,
    ensures
        r == spec_lerp_channel(source, target, fraction),
{
    if source >= target {
        let mag: u64 = (source - target) as u64;
        proof {
            lemma_scale_bounds(mag as int, fraction as int);
        }
        let scaled: u64 = mag * (fraction as u64) / (FRACTION_ONE as u64);
        let v: u64 = source as u64 + scaled;
        if v > 255 {
            255u8
        } else {
            v as u8
        }
    } else {
        let mag: u64 = (target - source) as u64;
        proof {
            lemma_scale_bounds(mag as int, fraction as int);
        }
        let scaled: u64 = mag * (fraction as u64) / (FRACTION_ONE as u64);
        if scaled > source as u64 {
            0u8
        } else {
            source - (scaled as u8)
        }
    }
}

/// Blends two colors by `fraction / FRACTION_ONE`, channel by channel, with
/// the same boundary and equal-endpoint short-circuits as
/// [`interpolate_vectors`]. Channel arithmetic truncates and saturates at
/// the 8-bit channel bounds.
pub fn interpolate_colors(source: Color, target: Color, fraction: u32) -> (result: Color)
    requires
        fraction <= FRACTION_ONE,
    ensures
        result == spec_interpolate_colors(source, target, fraction),
{
    if fraction == FRACTION_ONE {
        return target;
    }
    if fraction == 0 {
        return source;
    }
    if source == target {
        return source;
    }
    Color {
        r: lerp_channel(source.r, target.r, fraction),
        g: lerp_channel(source.g, target.g, fraction),
        b: lerp_channel(source.b, target.b, fraction),
        a: lerp_channel(source.a, target.a, fraction),
    }
}

/// Interpolation is idempotent: blending a vector with itself returns it
/// unchanged, whatever the fraction.
pub proof fn lemma_interpolate_vectors_idempotent(a: Vector2, fraction: u32)
    ensures
        spec_interpolate_vectors(a, a, fraction) == a,
{
}

/// Boundary exactness: fraction 0 returns the source and fraction
/// `FRACTION_ONE` returns the target, both without any arithmetic.
pub proof fn lemma_interpolate_vectors_boundaries(a: Vector2, b: Vector2)
    ensures
        spec_interpolate_vectors(a, b, 0) == a,
        spec_interpolate_vectors(a, b, FRACTION_ONE) == b,
{
}

/// The color blend is idempotent and boundary-exact in the same way.
pub proof fn lemma_interpolate_colors_exact(a: Color, b: Color, fraction: u32)
    ensures
        spec_interpolate_colors(a, a, fraction) == a,
        spec_interpolate_colors(a, b, 0) == a,
        spec_interpolate_colors(a, b, FRACTION_ONE) == b,
{
}

} // verus!
