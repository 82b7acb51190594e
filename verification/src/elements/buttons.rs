//! The widget transition engine: a button's interaction state machine.
//!
//! A button tracks two boolean inputs (`is_active`: the pointer hovers it,
//! `is_down`: it is pressed) and a discrete state over three interaction
//! tiers — idle, hover (`Active`) and pressed (`Down`). In snap mode the
//! visible attributes jump straight to the target tier's style values; in
//! smooth mode the engine enters a transitional state and interpolates
//! color, background, position and size toward the destination tier, driven
//! by a fraction that advances with elapsed time.

use vstd::prelude::*;

use crate::elements::{
    clamp_coord, clamp_to_limit, half_coord, interpolate_colors, interpolate_vectors, spec_half,
    spec_interpolate_colors, spec_interpolate_vectors, Color, Vector2, COORD_LIMIT, FRACTION_ONE,
};

verus! {

/// Font size, in pixels, of a button's label.
pub const LABEL_FONT_SIZE: i64 = 20;

/// The eight states of the widget transition engine: three stable tiers
/// (`Idle`, `Active`, `Down`) and five in-progress transitions between them.
#[derive(Clone, Copy, PartialEq, Eq, Structural, Debug)]
pub enum States {
    Idle,
    IdleToActive,
    Active,
    ActiveToDown,
    ActiveToIdle,
    Down,
    DownToActive,
    DownToIdle,
}

impl States {
    /// True for the five in-progress transition states.
    pub open spec fn is_transitional(self) -> bool {
        match self {
            States::IdleToActive => true,
            States::ActiveToDown => true,
            States::ActiveToIdle => true,
            States::DownToActive => true,
            States::DownToIdle => true,
            _ => false,
        }
    }

    /// True for the three stable interaction tiers.
    pub open spec fn is_stable(self) -> bool {
        !self.is_transitional()
    }

    /// The stable tier a transition is heading for; a stable state is its
    /// own destination.
    pub open spec fn destination(self) -> States {
        match self {
            States::IdleToActive => States::Active,
            States::ActiveToDown => States::Down,
            States::ActiveToIdle => States::Idle,
            States::DownToActive => States::Active,
            States::DownToIdle => States::Idle,
            s => s,
        }
    }
}

/// The style a button animates against: a color and background per tier,
/// a position and size per tier, and the two mode flags. When
/// `relative_transforms` is set, tier positions and sizes are offsets added
/// to a transform origin; otherwise they are absolute replacement values.
#[derive(Clone, Copy, PartialEq, Eq, Structural, Debug)]
pub struct ButtonStyle {
    pub origin_position: Vector2,
    pub origin_size: Vector2,
    pub idle_color: Color,
    pub idle_background: Color,
    pub idle_position: Vector2,
    pub idle_size: Vector2,
    pub smooth_transitions: bool,
    pub relative_transforms: bool,
    pub hovering_color: Color,
    pub hovering_position: Vector2,
    pub hovering_size: Vector2,
    pub hovering_background: Color,
    pub down_color: Color,
    pub down_position: Vector2,
    pub down_size: Vector2,
    pub down_background: Color,
}

impl ButtonStyle {
    /// All configured positions and sizes lie within the coordinate space.
    pub open spec fn wf(self) -> bool {
        &&& self.origin_position.in_range()
        &&& self.origin_size.in_range()
        &&& self.idle_position.in_range()
        &&& self.idle_size.in_range()
        &&& self.hovering_position.in_range()
        &&& self.hovering_size.in_range()
        &&& self.down_position.in_range()
        &&& self.down_size.in_range()
    }

    /// A style whose three tiers all share the given idle appearance; the
    /// hover and pressed tiers are meant to be customised afterwards with
    /// the `edit_*` builders.
    pub fn from_default(
        idle_color: Color,
        idle_background: Color,
        idle_position: Vector2,
        idle_size: Vector2,
        do_smooth_transitions: bool,
        do_relative_transforms: bool,
    ) -> (s: ButtonStyle)
        ensures
            s == (ButtonStyle {
                origin_position: Vector2 { x: 0, y: 0 },
                origin_size: Vector2 { x: 0, y: 0 },
                idle_color,
                idle_background,
                idle_position,
                idle_size,
                smooth_transitions: do_smooth_transitions,
                relative_transforms: do_relative_transforms,
                hovering_color: idle_color,
                hovering_position: idle_position,
                hovering_size: idle_size,
                hovering_background: idle_background,
                down_color: idle_color,
                down_position: idle_position,
                down_size: idle_size,
                down_background: idle_background,
            }),
    {
        ButtonStyle {
            origin_position: Vector2::zero(),
            origin_size: Vector2::zero(),
            idle_color,
            idle_background,
            idle_position,
            idle_size,
            smooth_transitions: do_smooth_transitions,
            relative_transforms: do_relative_transforms,
            hovering_color: idle_color,
            hovering_position: idle_position,
            hovering_size: idle_size,
            hovering_background: idle_background,
            down_color: idle_color,
            down_position: idle_position,
            down_size: idle_size,
            down_background: idle_background,
        }
    }

    /// Replaces the pressed tier's appearance.
    pub fn edit_down_style(
        &mut self,
        down_color: Color,
        down_background: Color,
        down_position: Vector2,
        down_size: Vector2,
    ) -> (r: &mut ButtonStyle)
        ensures
            *r == (ButtonStyle { down_color, down_background, down_position, down_size, ..*old(self) }),
            *final(self) == *final(r),
    {
        self.down_color = down_color;
        self.down_background = down_background;
        self.down_position = down_position;
        self.down_size = down_size;
        self
    }

    /// Replaces the hover tier's appearance.
    pub fn edit_hover_style(
        &mut self,
        hover_color: Color,
        hover_background: Color,
        hover_position: Vector2,
        hover_size: Vector2,
    ) -> (r: &mut ButtonStyle)
        ensures
            *r == (ButtonStyle {
                hovering_color: hover_color,
                hovering_background: hover_background,
                hovering_position: hover_position,
                hovering_size: hover_size,
                ..*old(self)
            }),
            *final(self) == *final(r),
    {
        self.hovering_color = hover_color;
        self.hovering_background = hover_background;
        self.hovering_position = hover_position;
        self.hovering_size = hover_size;
        self
    }

    /// Replaces the idle tier's appearance.
    pub fn edit_idle_style(
        &mut self,
        idle_color: Color,
        idle_background: Color,
        idle_position: Vector2,
        idle_size: Vector2,
    ) -> (r: &mut ButtonStyle)
        ensures
            *r == (ButtonStyle { idle_color, idle_background, idle_position, idle_size, ..*old(self) }),
            *final(self) == *final(r),
    {
        self.idle_color = idle_color;
        self.idle_background = idle_background;
        self.idle_position = idle_position;
        self.idle_size = idle_size;
        self
    }

    /// Captures the parent widget's current geometry as this style's
    /// transform origin, the base that relative tier offsets are added to.
    pub fn update_relatives(&mut self, parent: &Button)
        ensures
            *final(self) == (ButtonStyle {
                origin_position: parent.position,
                origin_size: parent.size,
                ..*old(self)
            }),
    {
        self.origin_position = parent.position;
        self.origin_size = parent.size;
    }

    /// The stored transform origin's size plus the tier's configured size.
    /// Resolving a transform for a transitional state is a programming
    /// error, so those states are excluded up front.
    pub fn get_unrelative_size(&self, state: States) -> (v: Vector2)
        requires
            state.is_stable(),
            self.wf(),
        ensures
            v.x == self.origin_size.x + spec_tier_size(*self, state).x,
            v.y == self.origin_size.y + spec_tier_size(*self, state).y,
    {
        match state {
            States::Idle => Vector2 {
                x: self.origin_size.x + self.idle_size.x,
                y: self.origin_size.y + self.idle_size.y,
            },
            States::Active => Vector2 {
                x: self.origin_size.x + self.hovering_size.x,
                y: self.origin_size.y + self.hovering_size.y,
            },
            _ => Vector2 {
                x: self.origin_size.x + self.down_size.x,
                y: self.origin_size.y + self.down_size.y,
            },
        }
    }

    /// The stored transform origin's position plus the tier's configured
    /// position, under the same stable-state precondition.
    pub fn get_unrelative_position(&self, state: States) -> (v: Vector2)
        requires
            state.is_stable(),
            self.wf(),
        ensures
            v.x == self.origin_position.x + spec_tier_position(*self, state).x,
            v.y == self.origin_position.y + spec_tier_position(*self, state).y,
    {
        match state {
            States::Idle => Vector2 {
                x: self.origin_position.x + self.idle_position.x,
                y: self.origin_position.y + self.idle_position.y,
            },
            States::Active => Vector2 {
                x: self.origin_position.x + self.hovering_position.x,
                y: self.origin_position.y + self.hovering_position.y,
            },
            _ => Vector2 {
                x: self.origin_position.x + self.down_position.x,
                y: self.origin_position.y + self.down_position.y,
            },
        }
    }

    /// A fresh style that keeps this style's flags and idle tier but resets
    /// the hover and pressed tiers back to the idle appearance.
    pub fn build(&self) -> (s: ButtonStyle)
        ensures
            s == (ButtonStyle {
                origin_position: Vector2 { x: 0, y: 0 },
                origin_size: Vector2 { x: 0, y: 0 },
                hovering_color: self.idle_color,
                hovering_position: self.idle_position,
                hovering_size: self.idle_size,
                hovering_background: self.idle_background,
                down_color: self.idle_color,
                down_position: self.idle_position,
                down_size: self.idle_size,
                down_background: self.idle_background,
                ..*self
            }),
    {
        ButtonStyle {
            idle_color: self.idle_color,
            idle_background: self.idle_background,
            idle_position: self.idle_position,
            idle_size: self.idle_size,
            smooth_transitions: self.smooth_transitions,
            relative_transforms: self.relative_transforms,
            hovering_color: self.idle_color,
            hovering_position: self.idle_position,
            hovering_size: self.idle_size,
            hovering_background: self.idle_background,
            down_color: self.idle_color,
            down_position: self.idle_position,
            down_size: self.idle_size,
            down_background: self.idle_background,
            origin_position: Vector2::zero(),
            origin_size: Vector2::zero(),
        }
    }

    /// The stock look: black-on-lightgray idle, red hover, dark purple
    /// pressed; snap transitions, relative transforms.
    pub fn build_default_style() -> (s: ButtonStyle)
        ensures
            s == spec_default_style(),
            s.wf(),
    {
        ButtonStyle {
            idle_color: Color::black(),
            idle_background: Color::lightgray(),
            idle_position: Vector2::zero(),
            idle_size: Vector2::zero(),
            smooth_transitions: false,
            relative_transforms: true,
            hovering_color: Color::red(),
            hovering_position: Vector2::zero(),
            hovering_size: Vector2::zero(),
            hovering_background: Color::lightgray(),
            down_color: Color::darkpurple(),
            down_position: Vector2::zero(),
            down_size: Vector2::zero(),
            down_background: Color::lightgray(),
            origin_position: Vector2::zero(),
            origin_size: Vector2::zero(),
        }
    }
}

/// The value [`ButtonStyle::build_default_style`] returns: black-on-
/// lightgray idle, red hover, dark purple pressed; snap transitions,
/// relative transforms, zero offsets.
pub open spec fn spec_default_style() -> ButtonStyle {
    ButtonStyle {
        origin_position: Vector2 { x: 0, y: 0 },
        origin_size: Vector2 { x: 0, y: 0 },
        idle_color: Color { r: 0, g: 0, b: 0, a: 255 },
        idle_background: Color { r: 200, g: 200, b: 200, a: 255 },
        idle_position: Vector2 { x: 0, y: 0 },
        idle_size: Vector2 { x: 0, y: 0 },
        smooth_transitions: false,
        relative_transforms: true,
        hovering_color: Color { r: 230, g: 41, b: 55, a: 255 },
        hovering_position: Vector2 { x: 0, y: 0 },
        hovering_size: Vector2 { x: 0, y: 0 },
        hovering_background: Color { r: 200, g: 200, b: 200, a: 255 },
        down_color: Color { r: 112, g: 31, b: 126, a: 255 },
        down_position: Vector2 { x: 0, y: 0 },
        down_size: Vector2 { x: 0, y: 0 },
        down_background: Color { r: 200, g: 200, b: 200, a: 255 },
    }
}

/// The given tier's foreground color. Meaningful for the three stable
/// tiers; the catch-all arm only keeps the function total.
pub open spec fn spec_tier_color(style: ButtonStyle, tier: States) -> Color {
    match tier {
        States::Active => style.hovering_color,
        States::Down => style.down_color,
        _ => style.idle_color,
    }
}

/// The given tier's background color.
pub open spec fn spec_tier_background(style: ButtonStyle, tier: States) -> Color {
    match tier {
        States::Active => style.hovering_background,
        States::Down => style.down_background,
        _ => style.idle_background,
    }
}

/// The given tier's configured position value.
pub open spec fn spec_tier_position(style: ButtonStyle, tier: States) -> Vector2 {
    match tier {
        States::Active => style.hovering_position,
        States::Down => style.down_position,
        _ => style.idle_position,
    }
}

/// The given tier's configured size value.
pub open spec fn spec_tier_size(style: ButtonStyle, tier: States) -> Vector2 {
    match tier {
        States::Active => style.hovering_size,
        States::Down => style.down_size,
        _ => style.idle_size,
    }
}

/// A vector built from two coordinates, each clamped into the coordinate
/// space.
pub open spec fn clamp_vector(x: int, y: int) -> Vector2 {
    Vector2 { x: clamp_coord(x) as i64, y: clamp_coord(y) as i64 }
}

/// The position a transition interpolates toward: the tier's offset added
/// to the transform origin when transforms are relative (clamped into the
/// coordinate space), the tier's absolute value otherwise. The origin is
/// the widget's geometry captured at the start of the tick, so a widget
/// whose base moves mid-transition chases the moving target.
pub open spec fn spec_target_position(style: ButtonStyle, origin: Vector2, tier: States) -> Vector2 {
    if style.relative_transforms {
        clamp_vector(
            origin.x + spec_tier_position(style, tier).x,
            origin.y + spec_tier_position(style, tier).y,
        )
    } else {
        spec_tier_position(style, tier)
    }
}

/// The size a transition interpolates toward, resolved like
/// [`spec_target_position`].
pub open spec fn spec_target_size(style: ButtonStyle, origin: Vector2, tier: States) -> Vector2 {
    if style.relative_transforms {
        clamp_vector(
            origin.x + spec_tier_size(style, tier).x,
            origin.y + spec_tier_size(style, tier).y,
        )
    } else {
        spec_tier_size(style, tier)
    }
}

/// An animated button: geometry, host-set inputs, a label, a style, and the
/// engine-owned visible attributes, state and transition fraction.
pub struct Button {
    pub position: Vector2,
    pub size: Vector2,
    pub is_active: bool,
    pub is_down: bool,
    pub label: String,
    pub style: ButtonStyle,
    pub color: Color,
    pub background: Color,
    pub state: States,
    pub fraction: u32,
}

/// The snap-mode phase of one tick: with smooth transitions off, the state
/// and all visible attributes jump straight to the target tier. The four
/// comparisons run in order on the evolving state, so a hovered and pressed
/// idle widget passes through `Active` into `Down` within a single tick.
pub open spec fn snap_step(b: Button) -> Button {
    let smooth = b.style.smooth_transitions;
    let b1 = if b.is_active && b.state == States::Idle && !smooth {
        Button {
            state: States::Active,
            color: b.style.hovering_color,
            background: b.style.hovering_background,
            position: b.style.hovering_position,
            size: b.style.hovering_size,
            ..b
        }
    } else {
        b
    };
    let b2 = if b1.is_active && b1.is_down && b1.state == States::Active && !smooth {
        Button {
            state: States::Down,
            color: b1.style.down_color,
            background: b1.style.down_background,
            position: b1.style.down_position,
            size: b1.style.down_size,
            ..b1
        }
    } else {
        b1
    };
    let b3 = if b2.is_active && !b2.is_down && b2.state == States::Down && !smooth {
        Button {
            state: States::Active,
            color: b2.style.hovering_color,
            background: b2.style.hovering_background,
            position: b2.style.hovering_position,
            size: b2.style.hovering_size,
            ..b2
        }
    } else {
        b2
    };
    if !b3.is_active && !b3.is_down && (b3.state == States::Down || b3.state == States::Active)
        && !smooth {
        Button {
            state: States::Idle,
            color: b3.style.idle_color,
            background: b3.style.idle_background,
            position: b3.style.idle_position,
            size: b3.style.idle_size,
            ..b3
        }
    } else {
        b3
    }
}

/// The smooth-mode trigger phase of one tick: with smooth transitions on,
/// the same input conditions instead enter the matching transitional state
/// and reset the fraction to zero.
pub open spec fn trigger_step(b: Button) -> Button {
    let smooth = b.style.smooth_transitions;
    let b1 = if b.is_active && b.state == States::Idle && smooth {
        Button { state: States::IdleToActive, fraction: 0, ..b }
    } else {
        b
    };
    let b2 = if b1.is_down && b1.is_active && b1.state == States::Active && smooth {
        Button { state: States::ActiveToDown, fraction: 0, ..b1 }
    } else {
        b1
    };
    let b3 = if !b2.is_down && b2.is_active && b2.state == States::Down && smooth {
        Button { state: States::DownToActive, fraction: 0, ..b2 }
    } else {
        b2
    };
    let b4 = if !b3.is_active && b3.state == States::Active && smooth {
        Button { state: States::ActiveToIdle, fraction: 0, ..b3 }
    } else {
        b3
    };
    if !b4.is_down && !b4.is_active && b4.state == States::Down && smooth {
        Button { state: States::DownToIdle, fraction: 0, ..b4 }
    } else {
        b4
    }
}

/// A transition fraction advanced by `dt` elapsed milliseconds, clamped at
/// `FRACTION_ONE`.
pub open spec fn spec_advance_fraction(fraction: u32, dt: u32) -> u32 {
    if fraction + dt >= FRACTION_ONE {
        FRACTION_ONE
    } else {
        (fraction + dt) as u32
    }
}

/// The interpolation phase of one tick: while the state is transitional the
/// fraction advances and all four visible attributes blend toward the
/// destination tier's resolved targets; once the fraction reaches
/// `FRACTION_ONE` the state settles on the destination tier (the fraction-
/// one interpolation has already placed the attributes exactly on the
/// target). The transform origin is the widget's geometry captured at the
/// start of the tick.
pub open spec fn advance_step(b: Button, origin_position: Vector2, origin_size: Vector2, dt: u32) -> Button {
    if b.state.is_transitional() {
        let dest = b.state.destination();
        if b.fraction < FRACTION_ONE {
            let f2 = spec_advance_fraction(b.fraction, dt);
            Button {
                state: if f2 == FRACTION_ONE {
                    dest
                } else {
                    b.state
                },
                fraction: f2,
                color: spec_interpolate_colors(b.color, spec_tier_color(b.style, dest), f2),
                background: spec_interpolate_colors(
                    b.background,
                    spec_tier_background(b.style, dest),
                    f2,
                ),
                size: spec_interpolate_vectors(
                    b.size,
                    spec_target_size(b.style, origin_size, dest),
                    f2,
                ),
                position: spec_interpolate_vectors(
                    b.position,
                    spec_target_position(b.style, origin_position, dest),
                    f2,
                ),
                ..b
            }
        } else {
            Button { state: dest, ..b }
        }
    } else {
        b
    }
}

/// One full engine tick: the snap phase, then the smooth-mode triggers,
/// then the interpolation phase, with the widget's pre-tick geometry as the
/// transform origin.
pub open spec fn draw_step(b: Button, dt: u32) -> Button {
    advance_step(trigger_step(snap_step(b)), b.position, b.size, dt)
}

/// The center of the rectangle spanned by `position` and `size`.
pub open spec fn spec_center(position: Vector2, size: Vector2) -> Vector2 {
    Vector2 {
        x: (position.x + spec_half(size.x as int)) as i64,
        y: (position.y + spec_half(size.y as int)) as i64,
    }
}

/// The two draw operations a button tick ends with: a filled background
/// rectangle over the widget's just-computed geometry, and its label
/// centered on that same geometry.
#[derive(Clone, Copy, PartialEq, Eq, Structural, Debug)]
pub struct ButtonDraw {
    pub rectangle_position: Vector2,
    pub rectangle_size: Vector2,
    pub rectangle_color: Color,
    pub label_position: Vector2,
    pub label_font_size: i64,
    pub label_color: Color,
}

/// What [`Button::draw`] hands back for rendering, given the widget after
/// the tick and the host-measured label width: every value — the rectangle
/// and the label's center alike — comes from the just-computed visible
/// attributes.
pub open spec fn spec_button_draw(after: Button, label_width: i64) -> ButtonDraw {
    let center = spec_center(after.position, after.size);
    ButtonDraw {
        rectangle_position: after.position,
        rectangle_size: after.size,
        rectangle_color: after.background,
        label_position: Vector2 {
            x: (center.x - spec_half(label_width as int)) as i64,
            y: (center.y - spec_half(LABEL_FONT_SIZE as int)) as i64,
        },
        label_font_size: LABEL_FONT_SIZE,
        label_color: after.color,
    }
}

/// A transition fraction advanced by `dt` milliseconds, clamped at
/// `FRACTION_ONE`.
fn advance_fraction(fraction: u32, dt: u32) -> (f2: u32)
    requires
        fraction <= FRACTION_ONE,
    ensures
        f2 == spec_advance_fraction(fraction, dt),
        f2 <= FRACTION_ONE,
{
    if dt >= FRACTION_ONE - fraction {
        FRACTION_ONE
    } else {
        fraction + dt
    }
}

/// The exec counterpart of [`spec_tier_color`].
fn tier_color(style: &ButtonStyle, tier: States) -> (c: Color)
    ensures
        c == spec_tier_color(*style, tier),
{
    match tier {
        States::Active => style.hovering_color,
        States::Down => style.down_color,
        _ => style.idle_color,
    }
}

/// The exec counterpart of [`spec_tier_background`].
fn tier_background(style: &ButtonStyle, tier: States) -> (c: Color)
    ensures
        c == spec_tier_background(*style, tier),
{
    match tier {
        States::Active => style.hovering_background,
        States::Down => style.down_background,
        _ => style.idle_background,
    }
}

/// The exec counterpart of [`spec_target_position`].
fn target_position(style: &ButtonStyle, origin: Vector2, tier: States) -> (t: Vector2)
    requires
        style.wf(),
        origin.in_range(),
    ensures
        t == spec_target_position(*style, origin, tier),
        t.in_range(),
{
    let configured = match tier {
        States::Active => style.hovering_position,
        States::Down => style.down_position,
        _ => style.idle_position,
    };
    if style.relative_transforms {
        Vector2 {
            x: clamp_to_limit(origin.x + configured.x),
            y: clamp_to_limit(origin.y + configured.y),
        }
    } else {
        configured
    }
}

/// The exec counterpart of [`spec_target_size`].
fn target_size(style: &ButtonStyle, origin: Vector2, tier: States) -> (t: Vector2)
    requires
        style.wf(),
        origin.in_range(),
    ensures
        t == spec_target_size(*style, origin, tier),
        t.in_range(),
{
    let configured = match tier {
        States::Active => style.hovering_size,
        States::Down => style.down_size,
        _ => style.idle_size,
    };
    if style.relative_transforms {
        Vector2 {
            x: clamp_to_limit(origin.x + configured.x),
            y: clamp_to_limit(origin.y + configured.y),
        }
    } else {
        configured
    }
}

impl Button {
    /// Geometry, style and transition fraction are all within bounds; every
    /// engine entry point preserves this.
    pub open spec fn wf(self) -> bool {
        &&& self.position.in_range()
        &&& self.size.in_range()
        &&& self.style.wf()
        &&& self.fraction <= FRACTION_ONE
    }

    /// A fresh button in the idle tier showing the style's idle appearance.
    pub fn new(position: Vector2, size: Vector2, label: String, button_style: ButtonStyle) -> (b: Button)
        ensures
            b.position == position,
            b.size == size,
            !b.is_active,
            !b.is_down,
            b.label == label,
            b.style == button_style,
            b.color == button_style.idle_color,
            b.background == button_style.idle_background,
            b.state == States::Idle,
            b.fraction == 0,
    {
        Button {
            position,
            size,
            is_active: false,
            is_down: false,
            state: States::Idle,
            label,
            style: button_style,
            color: button_style.idle_color,
            background: button_style.idle_background,
            fraction: 0,
        }
    }

    /// True when the point lies within the widget's rectangle, bounds
    /// included on all four edges.
    pub open spec fn spec_is_hover(self, point: Vector2) -> bool {
        &&& self.position.x <= point.x <= self.position.x + self.size.x
        &&& self.position.y <= point.y <= self.position.y + self.size.y
    }

    /// The inclusive point-in-rectangle test against the widget's current
    /// geometry.
    pub fn is_hover(&self, position: Vector2) -> (r: bool)
        requires
            self.position.in_range(),
            self.size.in_range(),
        ensures
            r == self.spec_is_hover(position),
    {
        if position.x >= self.position.x && position.x <= self.position.x + self.size.x {
            position.y >= self.position.y && position.y <= self.position.y + self.size.y
        } else {
            false
        }
    }

    /// The interpolation phase: advance the fraction, blend the four
    /// visible attributes toward `dest`, and settle on `dest` once the
    /// fraction reaches `FRACTION_ONE`.
    fn advance(&mut self, dest: States, origin_position: Vector2, origin_size: Vector2, dt: u32)
        requires
            old(self).wf(),
            old(self).state.is_transitional(),
            dest == old(self).state.destination(),
            origin_position.in_range(),
            origin_size.in_range(),
        ensures
            *final(self) == advance_step(*old(self), origin_position, origin_size, dt),
            final(self).wf(),
    {
        if self.fraction < FRACTION_ONE {
            self.fraction = advance_fraction(self.fraction, dt);
            self.color = interpolate_colors(self.color, tier_color(&self.style, dest), self.fraction);
            self.background = interpolate_colors(
                self.background,
                tier_background(&self.style, dest),
                self.fraction,
            );
            self.size = interpolate_vectors(
                self.size,
                target_size(&self.style, origin_size, dest),
                self.fraction,
            );
            self.position = interpolate_vectors(
                self.position,
                target_position(&self.style, origin_position, dest),
                self.fraction,
            );
            if self.fraction == FRACTION_ONE {
                self.state = dest;
            }
        } else {
            self.state = dest;
        }
    }

    /// One tick of the widget transition engine, returning the two draw
    /// operations (background rectangle, centered label) that render the
    /// just-computed visible attributes. `dt` is the elapsed time in
    /// milliseconds; `label_width` is the host-measured pixel width of the
    /// label at [`LABEL_FONT_SIZE`].
    pub fn draw(&mut self, dt: u32, label_width: i64) -> (ops: ButtonDraw)
        requires
            old(self).wf(),
            0 <= label_width <= COORD_LIMIT,
        ensures
            *final(self) == draw_step(*old(self), dt),
            final(self).wf(),
            ops == spec_button_draw(*final(self), label_width),
    {
        let origin_position = self.position;
        let origin_size = self.size;

        let smooth = self.style.smooth_transitions;

        if self.is_active && self.state == States::Idle && !smooth {
            self.state = States::Active;
            self.color = self.style.hovering_color;
            self.background = self.style.hovering_background;
            self.position = self.style.hovering_position;
            self.size = self.style.hovering_size;
        }
        if self.is_active && self.is_down && self.state == States::Active && !smooth {
            self.state = States::Down;
            self.color = self.style.down_color;
            self.background = self.style.down_background;
            self.position = self.style.down_position;
            self.size = self.style.down_size;
        }
        if self.is_active && !self.is_down && self.state == States::Down && !smooth {
            self.state = States::Active;
            self.color = self.style.hovering_color;
            self.background = self.style.hovering_background;
            self.position = self.style.hovering_position;
            self.size = self.style.hovering_size;
        }
        if !self.is_active && !self.is_down
            && (self.state == States::Down || self.state == States::Active) && !smooth {
            self.state = States::Idle;
            self.color = self.style.idle_color;
            self.background = self.style.idle_background;
            self.position = self.style.idle_position;
            self.size = self.style.idle_size;
        }

        if self.is_active && self.state == States::Idle && smooth {
            self.state = States::IdleToActive;
            self.fraction = 0;
        }
        if self.is_down && self.is_active && self.state == States::Active && smooth {
            self.state = States::ActiveToDown;
            self.fraction = 0;
        }
        if !self.is_down && self.is_active && self.state == States::Down && smooth {
            self.state = States::DownToActive;
            self.fraction = 0;
        }
        if !self.is_active && self.state == States::Active && smooth {
            self.state = States::ActiveToIdle;
            self.fraction = 0;
        }
        if !self.is_down && !self.is_active && self.state == States::Down && smooth {
            self.state = States::DownToIdle;
            self.fraction = 0;
        }

        if self.state == States::IdleToActive {
            self.advance(States::Active, origin_position, origin_size, dt);
        } else if self.state == States::ActiveToDown {
            self.advance(States::Down, origin_position, origin_size, dt);
        } else if self.state == States::ActiveToIdle {
            self.advance(States::Idle, origin_position, origin_size, dt);
        } else if self.state == States::DownToActive {
            self.advance(States::Active, origin_position, origin_size, dt);
        } else if self.state == States::DownToIdle {
            self.advance(States::Idle, origin_position, origin_size, dt);
        }

        let center = Vector2 {
            x: self.position.x + half_coord(self.size.x),
            y: self.position.y + half_coord(self.size.y),
        };
        ButtonDraw {
            rectangle_position: self.position,
            rectangle_size: self.size,
            rectangle_color: self.background,
            label_position: Vector2 {
                x: center.x - half_coord(label_width),
                y: center.y - half_coord(LABEL_FONT_SIZE),
            },
            label_font_size: LABEL_FONT_SIZE,
            label_color: self.color,
        }
    }
}

/// The widget after a whole sequence of engine ticks, one per entry of
/// `dts`.
pub open spec fn run_steps(b: Button, dts: Seq<u32>) -> Button
    decreases dts.len(),
{
    if dts.len() == 0 {
        b
    } else {
        run_steps(draw_step(b, dts[0]), dts.drop_first())
    }
}

/// The total elapsed time of a sequence of ticks, in milliseconds.
pub open spec fn sum_dts(dts: Seq<u32>) -> int
    decreases dts.len(),
{
    if dts.len() == 0 {
        0
    } else {
        dts[0] + sum_dts(dts.drop_first())
    }
}

/// Snap-mode release: a pressed widget whose inputs both drop is moved to
/// `Idle` by a single tick, with every visible attribute set exactly to the
/// idle tier's style values.
pub proof fn lemma_snap_release_to_idle(b: Button, dt: u32)
    requires
        !b.style.smooth_transitions,
        b.state == States::Down,
        !b.is_active,
        !b.is_down,
    ensures
        draw_step(b, dt).state == States::Idle,
        draw_step(b, dt).color == b.style.idle_color,
        draw_step(b, dt).background == b.style.idle_background,
        draw_step(b, dt).position == b.style.idle_position,
        draw_step(b, dt).size == b.style.idle_size,
{
}

/// The induction behind [`lemma_smooth_hover_convergence`]: once a hovered,
/// unpressed widget is transitioning toward (or has settled on) the hover
/// tier, ticks worth at least the fraction's remaining distance finish the
/// transition.
proof fn lemma_hover_run(b: Button, dts: Seq<u32>)
    requires
        b.style.smooth_transitions,
        b.is_active,
        !b.is_down,
        b.state == States::IdleToActive || b.state == States::Active,
        b.state == States::Active ==> b.fraction == FRACTION_ONE,
        b.state == States::IdleToActive ==> b.fraction < FRACTION_ONE,
        b.fraction + sum_dts(dts) >= FRACTION_ONE,
    ensures
        run_steps(b, dts).state == States::Active,
        run_steps(b, dts).fraction == FRACTION_ONE,
    decreases dts.len(),
{
    if dts.len() > 0 {
        lemma_sum_dts_nonneg(dts.drop_first());
        let b2 = draw_step(b, dts[0]);
        lemma_hover_run(b2, dts.drop_first());
    }
}

/// Smooth-mode convergence: a hovered idle widget with smooth transitions
/// on reaches the stable hover tier, with its fraction clamped at
/// `FRACTION_ONE`, after any sequence of ticks whose elapsed times sum to
/// at least 2200 milliseconds (2.2 seconds at the engine's 0.5-per-second
/// fraction rate).
pub proof fn lemma_smooth_hover_convergence(b: Button, dts: Seq<u32>)
    requires
        b.style.smooth_transitions,
        b.is_active,
        !b.is_down,
        b.state == States::Idle,
        sum_dts(dts) >= 2200,
    ensures
        run_steps(b, dts).state == States::Active,
        run_steps(b, dts).fraction == FRACTION_ONE,
{
    lemma_sum_dts_nonneg(dts.drop_first());
    let b1 = draw_step(b, dts[0]);
    lemma_hover_run(b1, dts.drop_first());
}

/// The total elapsed time of a tick sequence is never negative.
proof fn lemma_sum_dts_nonneg(dts: Seq<u32>)
    ensures
        sum_dts(dts) >= 0,
    decreases dts.len(),
{
    if dts.len() > 0 {
        lemma_sum_dts_nonneg(dts.drop_first());
    }
}

/// Hover-test inclusivity: a point exactly on the widget's corner — its own
/// position — counts as hovered, for any widget whose size is nonnegative.
pub proof fn lemma_hover_test_includes_edges(b: Button)
    requires
        b.position.in_range(),
        b.size.in_range(),
        b.size.x >= 0,
        b.size.y >= 0,
    ensures
        b.spec_is_hover(b.position),
        b.spec_is_hover(
            Vector2 { x: (b.position.x + b.size.x) as i64, y: (b.position.y + b.size.y) as i64 },
        ),
{
}

} // verus!
