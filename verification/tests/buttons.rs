use starframe::elements::buttons::{Button, ButtonStyle, States, LABEL_FONT_SIZE};
use starframe::elements::{Color, Vector2, FRACTION_ONE};

fn v(x: i64, y: i64) -> Vector2 {
    Vector2 { x, y }
}

fn pressed_snap_button() -> Button {
    let style = ButtonStyle::build_default_style();
    Button {
        position: v(5, 5),
        size: v(10, 10),
        is_active: false,
        is_down: false,
        label: String::from("Ok"),
        color: style.down_color,
        background: style.down_background,
        state: States::Down,
        fraction: 0,
        style,
    }
}

#[test]
fn snap_release_moves_pressed_to_idle_with_idle_attributes() {
    let mut b = pressed_snap_button();
    let _ = b.draw(16, 0);
    assert_eq!(b.state, States::Idle);
    assert_eq!(b.color, b.style.idle_color);
    assert_eq!(b.background, b.style.idle_background);
    assert_eq!(b.position, b.style.idle_position);
    assert_eq!(b.size, b.style.idle_size);
}

#[test]
fn snap_hover_assigns_hover_attributes() {
    let style = ButtonStyle::build_default_style();
    let mut b = Button::new(v(5, 5), v(10, 10), String::from("Go"), style);
    b.is_active = true;
    let _ = b.draw(16, 0);
    assert_eq!(b.state, States::Active);
    assert_eq!(b.color, b.style.hovering_color);
    assert_eq!(b.background, b.style.hovering_background);
}

#[test]
fn snap_passes_through_hover_into_pressed_within_one_tick() {
    let style = ButtonStyle::build_default_style();
    let mut b = Button::new(v(5, 5), v(10, 10), String::from("Go"), style);
    b.is_active = true;
    b.is_down = true;
    let _ = b.draw(16, 0);
    assert_eq!(b.state, States::Down);
    assert_eq!(b.color, b.style.down_color);
}

#[test]
fn smooth_hover_converges_after_two_point_two_seconds() {
    let mut style = ButtonStyle::build_default_style();
    style.smooth_transitions = true;
    let mut b = Button::new(v(0, 0), v(40, 20), String::from("Go"), style);
    b.is_active = true;
    // 22 ticks of 100 ms each: 2.2 seconds in all.
    for _ in 0..22 {
        let _ = b.draw(100, 0);
    }
    assert_eq!(b.state, States::Active);
    assert_eq!(b.fraction, FRACTION_ONE);
    assert_eq!(b.color, b.style.hovering_color);
    assert_eq!(b.background, b.style.hovering_background);
}

#[test]
fn smooth_hover_is_still_in_transition_after_one_second() {
    let mut style = ButtonStyle::build_default_style();
    style.smooth_transitions = true;
    let mut b = Button::new(v(0, 0), v(40, 20), String::from("Go"), style);
    b.is_active = true;
    for _ in 0..10 {
        let _ = b.draw(100, 0);
    }
    assert_eq!(b.state, States::IdleToActive);
    assert_eq!(b.fraction, 1000);
}

#[test]
fn hover_test_includes_every_edge() {
    let style = ButtonStyle::build_default_style();
    let b = Button::new(v(100, 200), v(50, 30), String::from("Hit"), style);
    assert!(b.is_hover(v(100, 200)));
    assert!(b.is_hover(v(150, 230)));
    assert!(b.is_hover(v(100, 230)));
    assert!(b.is_hover(v(150, 200)));
    assert!(b.is_hover(v(125, 215)));
    assert!(!b.is_hover(v(99, 215)));
    assert!(!b.is_hover(v(151, 215)));
    assert!(!b.is_hover(v(125, 199)));
    assert!(!b.is_hover(v(125, 231)));
}

#[test]
fn draw_reports_background_rectangle_and_centered_label() {
    let style = ButtonStyle::build_default_style();
    let mut b = Button::new(v(100, 200), v(50, 30), String::from("Hit"), style);
    let ops = b.draw(16, 24);
    // No inputs: the widget stays idle, so the rectangle keeps the
    // widget's geometry.
    assert_eq!(ops.rectangle_position, v(100, 200));
    assert_eq!(ops.rectangle_size, v(50, 30));
    assert_eq!(ops.rectangle_color, b.style.idle_background);
    // Label centered on the just-computed center (125, 215): x shifted
    // left by half the measured width, y by half the font size.
    assert_eq!(ops.label_position, v(125 - 12, 215 - 10));
    assert_eq!(ops.label_font_size, LABEL_FONT_SIZE);
    assert_eq!(ops.label_color, b.style.idle_color);
}

#[test]
fn label_centers_on_the_just_computed_geometry() {
    let mut style = ButtonStyle::build_default_style();
    style.edit_hover_style(
        Color { r: 1, g: 1, b: 1, a: 255 },
        Color { r: 2, g: 2, b: 2, a: 255 },
        v(100, 100),
        v(50, 50),
    );
    let mut b = Button::new(v(0, 0), v(0, 0), String::from("Go"), style);
    b.is_active = true;
    // The snap hover moves the widget to (100, 100) with size (50, 50);
    // rectangle and label alike follow the just-computed geometry, whose
    // center is (125, 125).
    let ops = b.draw(16, 0);
    assert_eq!(ops.rectangle_position, v(100, 100));
    assert_eq!(ops.rectangle_size, v(50, 50));
    assert_eq!(ops.label_position, v(125, 115));
}

#[test]
fn style_builders_compose() {
    let mut style = ButtonStyle::from_default(
        Color { r: 1, g: 2, b: 3, a: 255 },
        Color { r: 4, g: 5, b: 6, a: 255 },
        v(7, 8),
        v(9, 10),
        true,
        false,
    );
    assert_eq!(style.hovering_color, Color { r: 1, g: 2, b: 3, a: 255 });
    assert_eq!(style.down_background, Color { r: 4, g: 5, b: 6, a: 255 });
    assert!(style.smooth_transitions);
    assert!(!style.relative_transforms);

    style.edit_hover_style(Color { r: 11, g: 0, b: 0, a: 255 }, Color { r: 12, g: 0, b: 0, a: 255 }, v(1, 1), v(2, 2));
    assert_eq!(style.hovering_color, Color { r: 11, g: 0, b: 0, a: 255 });
    assert_eq!(style.hovering_position, v(1, 1));

    style.edit_down_style(Color { r: 13, g: 0, b: 0, a: 255 }, Color { r: 14, g: 0, b: 0, a: 255 }, v(3, 3), v(4, 4));
    assert_eq!(style.down_size, v(4, 4));

    style.edit_idle_style(Color { r: 15, g: 0, b: 0, a: 255 }, Color { r: 16, g: 0, b: 0, a: 255 }, v(5, 5), v(6, 6));
    assert_eq!(style.idle_position, v(5, 5));

    // build keeps idle and the flags but resets hover and pressed tiers.
    let rebuilt = style.build();
    assert_eq!(rebuilt.hovering_color, Color { r: 15, g: 0, b: 0, a: 255 });
    assert_eq!(rebuilt.down_position, v(5, 5));
    assert!(rebuilt.smooth_transitions);
}

#[test]
fn unrelative_transforms_add_the_captured_origin() {
    let mut style = ButtonStyle::build_default_style();
    style.edit_hover_style(
        Color { r: 1, g: 1, b: 1, a: 255 },
        Color { r: 2, g: 2, b: 2, a: 255 },
        v(5, -5),
        v(10, 10),
    );
    let parent = Button::new(v(100, 200), v(50, 30), String::from("P"), style);
    style.update_relatives(&parent);
    assert_eq!(style.get_unrelative_position(States::Active), v(105, 195));
    assert_eq!(style.get_unrelative_size(States::Active), v(60, 40));
    assert_eq!(style.get_unrelative_position(States::Idle), v(100, 200));
}
