//! Image covers: framed artwork scaled to fit the drawable area, and the
//! book that collects them.
//!
//! A cover records its image's pixel dimensions as plain values; loading
//! the texture itself and issuing the textured-quad draw are the host's
//! business. [`Cover::draw`] computes where and how large the image is to
//! be drawn, in fixed-point arithmetic: scale factors are carried in
//! thousandths.

use vstd::prelude::*;

use crate::elements::{half_coord, spec_half, Color, Rectangle, Vector2};

verus! {

/// Upper bound on screen and image dimensions accepted by the cover layout
/// arithmetic; it keeps every intermediate fixed-point product inside
/// `i64`.
pub const MAX_SURFACE_DIM: i64 = 1000000;

/// Scale factors are carried in thousandths: `SCALE_ONE` stands for a
/// scale of 1.0.
pub const SCALE_ONE: i64 = 1000;

/// A piece of cover art: the image's pixel dimensions, a label, and the
/// frame geometry used for the outline.
pub struct Cover {
    pub img_width: i64,
    pub img_height: i64,
    pub label: String,
    pub origin: Vector2,
    pub pos: Vector2,
    pub size: Vector2,
    pub rotation: i64,
}

/// An ordered collection of covers.
pub struct CoverBook {
    pub covers: Vec<Cover>,
}

/// A textured-quad draw operation: which part of the image to draw
/// (`source`), where on screen (`destination`), the rotation origin and
/// angle, and a tint.
#[derive(Clone, Copy, PartialEq, Eq, Structural, Debug)]
pub struct CoverDraw {
    pub source: Rectangle,
    pub destination: Rectangle,
    pub origin: Vector2,
    pub rotation: i64,
    pub tint: Color,
}

/// A rectangle-outline draw operation.
#[derive(Clone, Copy, PartialEq, Eq, Structural, Debug)]
pub struct OutlineDraw {
    pub rectangle: Rectangle,
    pub thickness: i64,
    pub color: Color,
}

/// `a * b / SCALE_ONE`, truncated toward zero: a length scaled by a
/// fixed-point factor carried in thousandths.
pub open spec fn spec_scale_trunc(a: int, b: int) -> int {
    if a >= 0 {
        (a * b) / (SCALE_ONE as int)
    } else {
        -((-a * b) / (SCALE_ONE as int))
    }
}

/// What [`Cover::draw`] returns. A square image fills the shorter screen
/// axis less an 80-pixel margin; any other image is scaled to the screen
/// width, or to the screen height where that would overflow it, and the
/// scale factors are then nudged down by 16 and 50 thousandths to leave a
/// border. Either way the destination is centered horizontally and sits 40
/// pixels below the vertical center, with the rotation origin at the
/// destination's own center.
pub open spec fn spec_cover_draw(c: Cover, screen: Vector2) -> CoverDraw {
    let source = Rectangle { x: 0, y: 0, width: c.img_width, height: c.img_height };
    let dest_x = spec_half(screen.x as int) as i64;
    let dest_y = (spec_half(screen.y as int) + 40) as i64;
    if c.img_width == c.img_height {
        let base = if screen.y < screen.x {
            screen.y
        } else {
            screen.x
        };
        let dest_size = (base - 80) as i64;
        CoverDraw {
            source,
            destination: Rectangle { x: dest_x, y: dest_y, width: dest_size, height: dest_size },
            origin: Vector2 {
                x: spec_half(dest_size as int) as i64,
                y: spec_half(dest_size as int) as i64,
            },
            rotation: c.rotation,
            tint: Color { r: 255, g: 255, b: 255, a: 255 },
        }
    } else {
        let width_scale = (screen.x * SCALE_ONE) / (c.img_width as int);
        let height_scale = if c.img_height * width_scale > screen.y * SCALE_ONE {
            (screen.y * SCALE_ONE) / (c.img_height as int)
        } else {
            width_scale
        };
        let dest_width = spec_scale_trunc(width_scale - 16, c.img_width as int) as i64;
        let dest_height = spec_scale_trunc(height_scale - 50, c.img_height as int) as i64;
        CoverDraw {
            source,
            destination: Rectangle { x: dest_x, y: dest_y, width: dest_width, height: dest_height },
            origin: Vector2 {
                x: spec_half(dest_width as int) as i64,
                y: spec_half(dest_height as int) as i64,
            },
            rotation: c.rotation,
            tint: Color { r: 255, g: 255, b: 255, a: 255 },
        }
    }
}

/// The exec counterpart of [`spec_scale_trunc`], over magnitudes so the
/// truncation direction is explicit.
fn scale_trunc(a: i64, b: i64) -> (r: i64)
    requires
        -2000000000 <= a <= 2000000000,
        0 < b <= MAX_SURFACE_DIM,
    ensures
        r == spec_scale_trunc(a as int, b as int),
        -2000000000000000 <= r <= 2000000000000000,
{
    proof {
        assert((if a >= 0 { a as int } else { -a as int }) * (b as int) <= 2000000000000000000)
            by (nonlinear_arith)
            requires
                -2000000000 <= a <= 2000000000,
                0 < b <= 1000000,
            ;
        vstd::arithmetic::div_mod::lemma_div_pos_is_pos(
            (if a >= 0 { a as int } else { -a as int }) * (b as int),
            SCALE_ONE as int,
        );
        vstd::arithmetic::div_mod::lemma_div_is_ordered(
            (if a >= 0 { a as int } else { -a as int }) * (b as int),
            2000000000000000000,
            SCALE_ONE as int,
        );
    }
    if a >= 0 {
        (((a as u64) * (b as u64)) / (SCALE_ONE as u64)) as i64
    } else {
        -(((((-a) as u64) * (b as u64)) / (SCALE_ONE as u64)) as i64)
    }
}

impl CoverBook {
    /// An empty book.
    pub fn new() -> (b: CoverBook)
        ensures
            b.covers@.len() == 0,
    {
        CoverBook { covers: Vec::new() }
    }

    /// Appends a cover at the end of the book.
    pub fn insert_cover(&mut self, cover: Cover)
        ensures
            final(self).covers@.len() == old(self).covers@.len() + 1,
            final(self).covers@[old(self).covers@.len() as int] == cover,
            forall|i: int|
                0 <= i < old(self).covers@.len() ==> final(self).covers@[i] == old(
                    self,
                ).covers@[i],
    {
        self.covers.push(cover);
    }
}

impl Cover {
    /// A cover for an image of the given pixel dimensions, with no rotation.
    pub fn new(
        img_width: i64,
        img_height: i64,
        text_label: String,
        origin: Vector2,
        pos: Vector2,
        size: Vector2,
    ) -> (c: Cover)
        ensures
            c.img_width == img_width,
            c.img_height == img_height,
            c.label == text_label,
            c.origin == origin,
            c.pos == pos,
            c.size == size,
            c.rotation == 0,
    {
        Cover { img_width, img_height, label: text_label, origin, pos, size, rotation: 0 }
    }

    /// Computes the textured-quad draw that fits this cover's image into
    /// the given drawable area, exactly as [`spec_cover_draw`] states.
    pub fn draw(&self, screen_size: Vector2) -> (op: CoverDraw)
        requires
            0 < self.img_width <= MAX_SURFACE_DIM,
            0 < self.img_height <= MAX_SURFACE_DIM,
            0 <= screen_size.x <= MAX_SURFACE_DIM,
            0 <= screen_size.y <= MAX_SURFACE_DIM,
        ensures
            op == spec_cover_draw(*self, screen_size),
    {
        let source = Rectangle { x: 0, y: 0, width: self.img_width, height: self.img_height };
        let dest_x = half_coord(screen_size.x);
        let dest_y = half_coord(screen_size.y) + 40;
        if self.img_width == self.img_height {
            let mut dest_size = screen_size.x;
            if screen_size.y < dest_size {
                dest_size = screen_size.y;
            }
            dest_size = dest_size - 80;
            CoverDraw {
                source,
                destination: Rectangle {
                    x: dest_x,
                    y: dest_y,
                    width: dest_size,
                    height: dest_size,
                },
                origin: Vector2 { x: half_coord(dest_size), y: half_coord(dest_size) },
                rotation: self.rotation,
                tint: Color::white(),
            }
        } else {
            let sx_scaled: i64 = screen_size.x * SCALE_ONE;
            let sy_scaled: i64 = screen_size.y * SCALE_ONE;
            proof {
                vstd::arithmetic::div_mod::lemma_div_pos_is_pos(
                    sx_scaled as int,
                    self.img_width as int,
                );
                vstd::arithmetic::div_mod::lemma_div_is_ordered(
                    sx_scaled as int,
                    1000000000,
                    self.img_width as int,
                );
                vstd::arithmetic::div_mod::lemma_div_pos_is_pos(
                    sy_scaled as int,
                    self.img_height as int,
                );
                vstd::arithmetic::div_mod::lemma_div_is_ordered(
                    sy_scaled as int,
                    1000000000,
                    self.img_height as int,
                );
            }
            let width_scale: i64 = ((sx_scaled as u64) / (self.img_width as u64)) as i64;
            proof {
                assert(self.img_height as int * width_scale as int <= 1000000000000000)
                    by (nonlinear_arith)
                    requires
                        0 < self.img_height <= 1000000,
                        0 <= width_scale <= 1000000000,
                    ;
            }
            let height_scale: i64 = if self.img_height * width_scale > sy_scaled {
                ((sy_scaled as u64) / (self.img_height as u64)) as i64
            } else {
                width_scale
            };
            let dest_width = scale_trunc(width_scale - 16, self.img_width);
            let dest_height = scale_trunc(height_scale - 50, self.img_height);
            CoverDraw {
                source,
                destination: Rectangle {
                    x: dest_x,
                    y: dest_y,
                    width: dest_width,
                    height: dest_height,
                },
                origin: Vector2 { x: half_coord(dest_width), y: half_coord(dest_height) },
                rotation: self.rotation,
                tint: Color::white(),
            }
        }
    }

    /// The red, 3-pixel-thick outline of the cover's frame rectangle.
    pub fn draw_lines(&self) -> (op: OutlineDraw)
        ensures
            op == (OutlineDraw {
                rectangle: Rectangle {
                    x: self.pos.x,
                    y: self.pos.y,
                    width: self.size.x,
                    height: self.size.y,
                },
                thickness: 3,
                color: Color { r: 230, g: 41, b: 55, a: 255 },
            }),
    {
        OutlineDraw {
            rectangle: Rectangle {
                x: self.pos.x,
                y: self.pos.y,
                width: self.size.x,
                height: self.size.y,
            },
            thickness: 3,
            color: Color::red(),
        }
    }
}

} // verus!
