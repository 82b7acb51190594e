use starframe::elements::{
    interpolate_colors, interpolate_vectors, Color, Vector2, COORD_LIMIT, FRACTION_ONE,
};

fn v(x: i64, y: i64) -> Vector2 {
    Vector2 { x, y }
}

fn c(r: u8, g: u8, b: u8, a: u8) -> Color {
    Color { r, g, b, a }
}

#[test]
fn vector_blend_is_idempotent_at_every_fraction() {
    let a = v(37, -12);
    for fraction in [0u32, 1, 250, 999, 1000, 1999, 2000] {
        assert_eq!(interpolate_vectors(a, a, fraction), a);
    }
}

#[test]
fn vector_blend_is_exact_at_the_boundaries() {
    let a = v(-500, 123);
    let b = v(700, -9);
    assert_eq!(interpolate_vectors(a, b, 0), a);
    assert_eq!(interpolate_vectors(a, b, FRACTION_ONE), b);
}

#[test]
fn vector_blend_moves_away_from_the_target() {
    // The blend is source + (source - target) * t, not the conventional
    // direction: at half fraction the result sits on the far side of the
    // source.
    let a = v(0, 0);
    let b = v(100, 100);
    let mid = interpolate_vectors(a, b, 1000);
    assert_eq!(mid, v(-50, -50));
}

#[test]
fn vector_blend_truncates_toward_zero() {
    // diff * fraction / denominator = 3 * 500 / 2000 = 0.75, truncated to 0
    // in both directions.
    assert_eq!(interpolate_vectors(v(3, 0), v(0, 0), 500), v(3, 0));
    assert_eq!(interpolate_vectors(v(-3, 0), v(0, 0), 500), v(-3, 0));
}

#[test]
fn vector_blend_saturates_at_the_coordinate_limit() {
    let a = v(COORD_LIMIT, 0);
    let b = v(-COORD_LIMIT, 0);
    // source + (source - target) would be 2 * COORD_LIMIT: clamped.
    let out = interpolate_vectors(a, b, 1000);
    assert_eq!(out, v(COORD_LIMIT, 0));
}

#[test]
fn color_blend_is_idempotent_and_boundary_exact() {
    let a = c(10, 20, 30, 255);
    let b = c(200, 150, 100, 255);
    for fraction in [0u32, 500, 2000] {
        assert_eq!(interpolate_colors(a, a, fraction), a);
    }
    assert_eq!(interpolate_colors(a, b, 0), a);
    assert_eq!(interpolate_colors(a, b, FRACTION_ONE), b);
}

#[test]
fn color_blend_channel_formula() {
    // Channel-wise source + (source - target) * t, truncated, clamped to
    // the 8-bit range. r: 100 + (100 - 50) * 0.25 = 112 (after truncation);
    // g: 10 - (200 - 10) * 0.25 = 10 - 47 = -37 -> 0;
    // b: 250 + (250 - 0) * 0.25 = 312 -> 255.
    let s = c(100, 10, 250, 255);
    let t = c(50, 200, 0, 255);
    let out = interpolate_colors(s, t, 500);
    assert_eq!(out.r, 112);
    assert_eq!(out.g, 0);
    assert_eq!(out.b, 255);
    assert_eq!(out.a, 255);
}
