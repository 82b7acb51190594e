use starframe::elements::covers::{Cover, CoverBook};
use starframe::elements::{Color, Vector2};

fn v(x: i64, y: i64) -> Vector2 {
    Vector2 { x, y }
}

fn cover(img_width: i64, img_height: i64) -> Cover {
    Cover::new(
        img_width,
        img_height,
        String::from("Art"),
        v(0, 0),
        v(20, 80),
        v(120, 90),
    )
}

#[test]
fn square_image_fills_the_shorter_axis_with_a_margin() {
    let c = cover(100, 100);
    let op = c.draw(v(640, 480));
    assert_eq!(op.source.x, 0);
    assert_eq!(op.source.y, 0);
    assert_eq!(op.source.width, 100);
    assert_eq!(op.source.height, 100);
    // min(640, 480) - 80 = 400, centered at (320, 240 + 40).
    assert_eq!(op.destination.x, 320);
    assert_eq!(op.destination.y, 280);
    assert_eq!(op.destination.width, 400);
    assert_eq!(op.destination.height, 400);
    assert_eq!(op.origin, v(200, 200));
    assert_eq!(op.rotation, 0);
    assert_eq!(op.tint, Color { r: 255, g: 255, b: 255, a: 255 });
}

#[test]
fn wide_image_scales_to_the_screen_width() {
    let c = cover(200, 100);
    let op = c.draw(v(640, 480));
    // width scale = 640000 / 200 = 3200 thousandths; the scaled height
    // (320) fits the screen, so the height shares the scale. The border
    // nudge then takes 16 and 50 thousandths off:
    // width  = (3200 - 16) * 200 / 1000 = 636,
    // height = (3200 - 50) * 100 / 1000 = 315.
    assert_eq!(op.destination.x, 320);
    assert_eq!(op.destination.y, 280);
    assert_eq!(op.destination.width, 636);
    assert_eq!(op.destination.height, 315);
    assert_eq!(op.origin, v(318, 157));
}

#[test]
fn tall_image_falls_back_to_the_screen_height_scale() {
    let c = cover(100, 400);
    let op = c.draw(v(640, 480));
    // width scale 6400 would make the height 2560 > 480, so the height
    // scale becomes 480000 / 400 = 1200 thousandths.
    // width  = (6400 - 16) * 100 / 1000 = 638,
    // height = (1200 - 50) * 400 / 1000 = 460.
    assert_eq!(op.destination.width, 638);
    assert_eq!(op.destination.height, 460);
    assert_eq!(op.origin, v(319, 230));
}

#[test]
fn outline_draws_the_frame_rectangle_in_red() {
    let c = cover(100, 100);
    let op = c.draw_lines();
    assert_eq!(op.rectangle.x, 20);
    assert_eq!(op.rectangle.y, 80);
    assert_eq!(op.rectangle.width, 120);
    assert_eq!(op.rectangle.height, 90);
    assert_eq!(op.thickness, 3);
    assert_eq!(op.color, Color { r: 230, g: 41, b: 55, a: 255 });
}

#[test]
fn a_book_keeps_its_covers_in_insertion_order() {
    let mut book = CoverBook::new();
    assert_eq!(book.covers.len(), 0);
    book.insert_cover(cover(10, 10));
    book.insert_cover(cover(20, 30));
    assert_eq!(book.covers.len(), 2);
    assert_eq!(book.covers[0].img_width, 10);
    assert_eq!(book.covers[1].img_height, 30);
}
