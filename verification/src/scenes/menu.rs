//! The main menu scene: five animated buttons, a cover image, and a
//! two-curtain opening animation driven by a frame counter.
//!
//! One menu tick runs, in order: the curtain phase machine, pointer-hover
//! sampling on each button, the screen-size-dependent layout, pointer-press
//! sampling, the exit-button check (which ends the tick early with the exit
//! command), and finally one widget-engine tick per button. The curtains'
//! eased heights during phase 1 are a rendering concern the host derives
//! from the frame counter.

use vstd::prelude::*;

use crate::elements::buttons::{draw_step, Button, ButtonStyle, States};
use crate::elements::covers::{Cover, MAX_SURFACE_DIM};
use crate::elements::scenes::{AsScene, CommandView, HostFrame, SceneCommand};
use crate::elements::{
    clamp_coord, clamp_to_limit, half_coord, spec_half, Color, Rectangle, Vector2,
};

verus! {

/// The menu scene's state: its registry name, the cover art, the five
/// buttons (start, options, exit, page-left, page-right), the curtain
/// phase machine's counter and phase, and the two curtain rectangles.
pub struct MainScreen {
    pub name: String,
    pub simple_cover: Cover,
    pub buttons: Vec<Button>,
    pub frame_counter: i32,
    pub state: i32,
    pub opening_rectangle: Vec<Rectangle>,
}

/// The curtain phase machine, before the end-of-tick frame increment:
/// phase 0 holds the closed curtains for 180 frames, phase 1 eases them
/// open for 360 frames, phase 2 is the open steady state.
pub open spec fn spec_menu_phase(state: i32, frame_counter: i32) -> (i32, i32) {
    if state == 0 {
        if frame_counter >= 180 {
            (1, 0)
        } else {
            (0, frame_counter)
        }
    } else if state == 1 {
        if frame_counter >= 360 {
            (2, 0)
        } else {
            (1, frame_counter)
        }
    } else {
        (state, frame_counter)
    }
}

/// A frame counter advanced by one, saturating at the counter's maximum.
pub open spec fn spec_count_frame(frame_counter: i32) -> i32 {
    if frame_counter < i32::MAX {
        (frame_counter + 1) as i32
    } else {
        frame_counter
    }
}

/// The curtain rectangles after one tick: during phase 0 both are resized
/// to span the screen width and half the screen height; afterwards they
/// are left as they are.
pub open spec fn spec_curtain_rects(m: MainScreen, host: HostFrame) -> Seq<Rectangle> {
    if m.state == 0 {
        m.opening_rectangle@.map_values(
            |r: Rectangle|
                Rectangle {
                    width: host.screen.x,
                    height: spec_half(host.screen.y as int) as i64,
                    ..r
                },
        )
    } else {
        m.opening_rectangle@
    }
}

/// A button after the tick's hover sampling: `is_active` holds exactly
/// when the pointer lies over the button's current geometry.
pub open spec fn spec_hovered_button(b: Button, host: HostFrame) -> Button {
    Button { is_active: b.spec_is_hover(host.pointer), ..b }
}

/// Button `i` after the tick's layout: the top three buttons share a third
/// of the screen width (the options button centered and the exit button
/// right-aligned, both placed using their pre-layout widths), and the
/// pager buttons hug the screen edges at half height.
pub open spec fn spec_laid_out_button(b: Button, host: HostFrame, i: int) -> Button {
    let split_size = (host.screen.x as int / 3 - 10) as i64;
    if i == 0 {
        Button { size: Vector2 { x: split_size, y: b.size.y }, ..b }
    } else if i == 1 {
        Button {
            position: Vector2 {
                x: (spec_half(host.screen.x as int) - spec_half(b.size.x as int)) as i64,
                y: b.position.y,
            },
            size: Vector2 { x: split_size, y: b.size.y },
            ..b
        }
    } else if i == 2 {
        Button {
            position: Vector2 {
                x: clamp_coord(host.screen.x - 10 - b.size.x) as i64,
                y: b.position.y,
            },
            size: Vector2 { x: split_size, y: b.size.y },
            ..b
        }
    } else if i == 3 {
        Button {
            position: Vector2 { x: b.position.x, y: spec_half(host.screen.y as int) as i64 },
            ..b
        }
    } else {
        Button {
            position: Vector2 {
                x: (host.screen.x - 20) as i64,
                y: spec_half(host.screen.y as int) as i64,
            },
            ..b
        }
    }
}

/// A button after the tick's press sampling: `is_down` holds exactly when
/// the pointer lies over the (laid-out) geometry with the button held
/// down.
pub open spec fn spec_pressed_button(b: Button, host: HostFrame) -> Button {
    Button { is_down: b.spec_is_hover(host.pointer) && host.mouse_down, ..b }
}

/// Button `i` after one tick's input sampling and layout, before its
/// widget-engine step: hover sampling against the pre-layout geometry,
/// then the layout, then press sampling against the post-layout geometry.
pub open spec fn spec_prepared_button(buttons: Seq<Button>, host: HostFrame, i: int) -> Button {
    spec_pressed_button(spec_laid_out_button(spec_hovered_button(buttons[i], host), host, i), host)
}

/// True when the tick ends early with the exit command: the pointer was
/// freshly pressed while over the exit button's post-layout geometry.
pub open spec fn spec_exit_hit(buttons: Seq<Button>, host: HostFrame) -> bool {
    host.mouse_pressed && spec_prepared_button(buttons, host, 2).spec_is_hover(host.pointer)
}

/// What [`MainScreen::load`] does: every button gets the menu's shared
/// blue style and everything else is left alone.
pub open spec fn spec_menu_loaded(pre: MainScreen, post: MainScreen) -> bool {
    &&& post.name == pre.name
    &&& post.simple_cover == pre.simple_cover
    &&& post.frame_counter == pre.frame_counter
    &&& post.state == pre.state
    &&& post.opening_rectangle == pre.opening_rectangle
    &&& post.buttons@.len() == pre.buttons@.len()
    &&& forall|i: int|
        0 <= i < pre.buttons@.len() ==> #[trigger] post.buttons@[i] == (Button {
            style: spec_menu_style(),
            ..pre.buttons@[i]
        })
}

/// The style [`MainScreen::load`] gives every button: blue-on-lightgray
/// idle, dark blue hover, dark blue on gray pressed; snap transitions,
/// relative transforms, zero offsets.
pub open spec fn spec_menu_style() -> ButtonStyle {
    ButtonStyle {
        origin_position: Vector2 { x: 0, y: 0 },
        origin_size: Vector2 { x: 0, y: 0 },
        idle_color: Color { r: 0, g: 121, b: 241, a: 255 },
        idle_background: Color { r: 200, g: 200, b: 200, a: 255 },
        idle_position: Vector2 { x: 0, y: 0 },
        idle_size: Vector2 { x: 0, y: 0 },
        smooth_transitions: false,
        relative_transforms: true,
        hovering_color: Color { r: 0, g: 82, b: 172, a: 255 },
        hovering_position: Vector2 { x: 0, y: 0 },
        hovering_size: Vector2 { x: 0, y: 0 },
        hovering_background: Color { r: 200, g: 200, b: 200, a: 255 },
        down_color: Color { r: 0, g: 82, b: 172, a: 255 },
        down_position: Vector2 { x: 0, y: 0 },
        down_size: Vector2 { x: 0, y: 0 },
        down_background: Color { r: 130, g: 130, b: 130, a: 255 },
    }
}

impl MainScreen {
    /// The menu as first shown: five default-styled buttons across the top
    /// and edges, the cover frame below the button bar, and the curtains
    /// closed over each half of the screen. The host passes the drawable
    /// area and the cover image's pixel dimensions.
    pub fn new(screen: Vector2, cover_width: i64, cover_height: i64) -> (m: MainScreen)
        requires
            0 < cover_width <= MAX_SURFACE_DIM,
            0 < cover_height <= MAX_SURFACE_DIM,
            0 <= screen.x <= MAX_SURFACE_DIM,
            0 <= screen.y <= MAX_SURFACE_DIM,
        ensures
            m.inv(),
            m.name@ == "Menu"@,
            m.frame_counter == 0,
            m.state == 0,
            m.buttons@.len() == 5,
            forall|i: int|
                0 <= i < 5 ==> {
                    let b = #[trigger] m.buttons@[i];
                    &&& b.style == crate::elements::buttons::spec_default_style()
                    &&& b.state == States::Idle
                    &&& !b.is_active
                    &&& !b.is_down
                    &&& b.fraction == 0
                },
            m.buttons@[0].label@ == "Start"@,
            m.buttons@[0].position == (Vector2 { x: 10, y: 10 }),
            m.buttons@[0].size == (Vector2 { x: 100, y: 60 }),
            m.buttons@[1].label@ == "Options"@,
            m.buttons@[1].position == (Vector2 { x: 250, y: 10 }),
            m.buttons@[1].size == (Vector2 { x: 100, y: 60 }),
            m.buttons@[2].label@ == "Exit"@,
            m.buttons@[2].position == (Vector2 { x: 540, y: 10 }),
            m.buttons@[2].size == (Vector2 { x: 100, y: 60 }),
            m.buttons@[3].label@ == "<"@,
            m.buttons@[3].position == (Vector2 { x: 0, y: 240 }),
            m.buttons@[3].size == (Vector2 { x: 20, y: 80 }),
            m.buttons@[4].label@ == ">"@,
            m.buttons@[4].position == (Vector2 { x: 620, y: 240 }),
            m.buttons@[4].size == (Vector2 { x: 20, y: 80 }),
            m.simple_cover.label@ == "Paper Mario 64"@,
            m.simple_cover.img_width == cover_width,
            m.simple_cover.img_height == cover_height,
            m.simple_cover.pos == (Vector2 { x: 20, y: 80 }),
            m.simple_cover.size == (Vector2 { x: 0, y: 0 }),
            m.opening_rectangle@.len() == 2,
            m.opening_rectangle@[0] == (Rectangle {
                x: 0,
                y: 0,
                width: screen.x,
                height: spec_half(screen.y as int) as i64,
            }),
            m.opening_rectangle@[1] == (Rectangle {
                x: 0,
                y: spec_half(screen.y as int) as i64,
                width: screen.x,
                height: spec_half(screen.y as int) as i64,
            }),
    {
        let half_height = half_coord(screen.y);
        let style = ButtonStyle::build_default_style();
        let mut buttons: Vec<Button> = Vec::new();
        buttons.push(
            Button::new(
                Vector2 { x: 10, y: 10 },
                Vector2 { x: 100, y: 60 },
                "Start".to_owned(),
                style,
            ),
        );
        buttons.push(
            Button::new(
                Vector2 { x: 250, y: 10 },
                Vector2 { x: 100, y: 60 },
                "Options".to_owned(),
                style,
            ),
        );
        buttons.push(
            Button::new(
                Vector2 { x: 540, y: 10 },
                Vector2 { x: 100, y: 60 },
                "Exit".to_owned(),
                style,
            ),
        );
        buttons.push(
            Button::new(
                Vector2 { x: 0, y: 240 },
                Vector2 { x: 20, y: 80 },
                "<".to_owned(),
                style,
            ),
        );
        buttons.push(
            Button::new(
                Vector2 { x: 620, y: 240 },
                Vector2 { x: 20, y: 80 },
                ">".to_owned(),
                style,
            ),
        );
        let mut opening_rectangle: Vec<Rectangle> = Vec::new();
        opening_rectangle.push(Rectangle { x: 0, y: 0, width: screen.x, height: half_height });
        opening_rectangle.push(
            Rectangle { x: 0, y: half_height, width: screen.x, height: half_height },
        );
        MainScreen {
            name: "Menu".to_owned(),
            simple_cover: Cover::new(
                cover_width,
                cover_height,
                "Paper Mario 64".to_owned(),
                Vector2 { x: 0, y: 0 },
                Vector2 { x: 20, y: 80 },
                Vector2 { x: 0, y: 0 },
            ),
            buttons,
            frame_counter: 0,
            state: 0,
            opening_rectangle,
        }
    }

    /// The curtain phase machine and, during phase 0, the curtain resize.
    fn run_curtain_phase(&mut self, host: &HostFrame)
        requires
            host.wf(),
        ensures
            final(self).state == spec_menu_phase(old(self).state, old(self).frame_counter).0,
            final(self).frame_counter == spec_menu_phase(old(self).state, old(self).frame_counter).1,
            final(self).opening_rectangle@ == spec_curtain_rects(*old(self), *host),
            final(self).name == old(self).name,
            final(self).simple_cover == old(self).simple_cover,
            final(self).buttons == old(self).buttons,
    {
        let half_screen_y = half_coord(host.screen.y);
        if self.state == 0 {
            let mut k: usize = 0;
            while k < self.opening_rectangle.len()
                invariant
                    k <= self.opening_rectangle@.len(),
                    self.opening_rectangle@.len() == old(self).opening_rectangle@.len(),
                    half_screen_y == spec_half(host.screen.y as int),
                    forall|j: int|
                        0 <= j < k ==> #[trigger] self.opening_rectangle@[j] == (Rectangle {
                            width: host.screen.x,
                            height: spec_half(host.screen.y as int) as i64,
                            ..old(self).opening_rectangle@[j]
                        }),
                    forall|j: int|
                        k <= j < self.opening_rectangle@.len() ==> self.opening_rectangle@[j] == old(
                            self,
                        ).opening_rectangle@[j],
                    self.buttons == old(self).buttons,
                    self.name == old(self).name,
                    self.simple_cover == old(self).simple_cover,
                    self.frame_counter == old(self).frame_counter,
                    self.state == old(self).state,
                decreases self.opening_rectangle@.len() - k,
            {
                let r = &mut self.opening_rectangle[k];
                r.width = host.screen.x;
                r.height = half_screen_y;
                k += 1;
            }
            proof {
                assert(self.opening_rectangle@ =~= spec_curtain_rects(*old(self), *host));
            }
            if self.frame_counter >= 180 {
                self.state = 1;
                self.frame_counter = 0;
            }
        } else if self.state == 1 {
            if self.frame_counter >= 360 {
                self.state = 2;
                self.frame_counter = 0;
            }
        }
    }

    /// Samples the pointer against every button's current geometry.
    fn sample_hover(&mut self, host: &HostFrame)
        requires
            old(self).inv(),
        ensures
            final(self).inv(),
            forall|i: int|
                0 <= i < 5 ==> #[trigger] final(self).buttons@[i] == spec_hovered_button(
                    old(self).buttons@[i],
                    *host,
                ),
            final(self).name == old(self).name,
            final(self).simple_cover == old(self).simple_cover,
            final(self).frame_counter == old(self).frame_counter,
            final(self).state == old(self).state,
            final(self).opening_rectangle == old(self).opening_rectangle,
    {
        let mut i: usize = 0;
        while i < 5
            invariant
                i <= 5,
                self.buttons@.len() == 5,
                old(self).buttons@.len() == 5,
                forall|j: int| 0 <= j < 5 ==> (#[trigger] old(self).buttons@[j]).wf(),
                forall|j: int|
                    0 <= j < i ==> #[trigger] self.buttons@[j] == spec_hovered_button(
                        old(self).buttons@[j],
                        *host,
                    ),
                forall|j: int| i <= j < 5 ==> self.buttons@[j] == old(self).buttons@[j],
                self.name == old(self).name,
                self.simple_cover == old(self).simple_cover,
                self.frame_counter == old(self).frame_counter,
                self.state == old(self).state,
                self.opening_rectangle == old(self).opening_rectangle,
            decreases 5 - i,
        {
            let hovered = self.buttons[i].is_hover(host.pointer);
            let b = &mut self.buttons[i];
            b.is_active = hovered;
            i += 1;
        }
    }

    /// The screen-size-dependent layout of the five buttons.
    fn layout_buttons(&mut self, host: &HostFrame)
        requires
            old(self).inv(),
            host.wf(),
        ensures
            final(self).inv(),
            forall|i: int|
                0 <= i < 5 ==> #[trigger] final(self).buttons@[i] == spec_laid_out_button(
                    old(self).buttons@[i],
                    *host,
                    i,
                ),
            final(self).name == old(self).name,
            final(self).simple_cover == old(self).simple_cover,
            final(self).frame_counter == old(self).frame_counter,
            final(self).state == old(self).state,
            final(self).opening_rectangle == old(self).opening_rectangle,
    {
        let half_screen_x = half_coord(host.screen.x);
        let half_screen_y = half_coord(host.screen.y);

        let options_half_width = half_coord(self.buttons[1].size.x);
        let b1 = &mut self.buttons[1];
        b1.position.x = half_screen_x - options_half_width;

        let exit_width = self.buttons[2].size.x;
        let b2 = &mut self.buttons[2];
        b2.position.x = clamp_to_limit(host.screen.x - 10 - exit_width);

        let screen_split = ((host.screen.x as u64) / 3) as i64;
        let b0 = &mut self.buttons[0];
        b0.size.x = screen_split - 10;
        let b1 = &mut self.buttons[1];
        b1.size.x = screen_split - 10;
        let b2 = &mut self.buttons[2];
        b2.size.x = screen_split - 10;

        let b4 = &mut self.buttons[4];
        b4.position.x = host.screen.x - 20;
        b4.position.y = half_screen_y;

        let b3 = &mut self.buttons[3];
        b3.position.y = half_screen_y;
    }

    /// Samples the pointer-button state against every button's laid-out
    /// geometry.
    fn sample_down(&mut self, host: &HostFrame)
        requires
            old(self).inv(),
        ensures
            final(self).inv(),
            forall|i: int|
                0 <= i < 5 ==> #[trigger] final(self).buttons@[i] == spec_pressed_button(
                    old(self).buttons@[i],
                    *host,
                ),
            final(self).name == old(self).name,
            final(self).simple_cover == old(self).simple_cover,
            final(self).frame_counter == old(self).frame_counter,
            final(self).state == old(self).state,
            final(self).opening_rectangle == old(self).opening_rectangle,
    {
        let mut i: usize = 0;
        while i < 5
            invariant
                i <= 5,
                self.buttons@.len() == 5,
                old(self).buttons@.len() == 5,
                forall|j: int| 0 <= j < 5 ==> (#[trigger] old(self).buttons@[j]).wf(),
                forall|j: int|
                    0 <= j < i ==> #[trigger] self.buttons@[j] == spec_pressed_button(
                        old(self).buttons@[j],
                        *host,
                    ),
                forall|j: int| i <= j < 5 ==> self.buttons@[j] == old(self).buttons@[j],
                self.name == old(self).name,
                self.simple_cover == old(self).simple_cover,
                self.frame_counter == old(self).frame_counter,
                self.state == old(self).state,
                self.opening_rectangle == old(self).opening_rectangle,
            decreases 5 - i,
        {
            let hovered = self.buttons[i].is_hover(host.pointer);
            let down = hovered && host.mouse_down;
            let b = &mut self.buttons[i];
            b.is_down = down;
            i += 1;
        }
    }

    /// One widget-engine tick for every button.
    fn tick_buttons(&mut self, dt: u32)
        requires
            old(self).inv(),
        ensures
            final(self).inv(),
            forall|i: int|
                0 <= i < 5 ==> #[trigger] final(self).buttons@[i] == draw_step(
                    old(self).buttons@[i],
                    dt,
                ),
            final(self).name == old(self).name,
            final(self).simple_cover == old(self).simple_cover,
            final(self).frame_counter == old(self).frame_counter,
            final(self).state == old(self).state,
            final(self).opening_rectangle == old(self).opening_rectangle,
    {
        let mut i: usize = 0;
        while i < 5
            invariant
                i <= 5,
                self.buttons@.len() == 5,
                old(self).buttons@.len() == 5,
                forall|j: int| 0 <= j < 5 ==> (#[trigger] self.buttons@[j]).wf(),
                forall|j: int|
                    0 <= j < i ==> #[trigger] self.buttons@[j] == draw_step(
                        old(self).buttons@[j],
                        dt,
                    ),
                forall|j: int| i <= j < 5 ==> self.buttons@[j] == old(self).buttons@[j],
                self.name == old(self).name,
                self.simple_cover == old(self).simple_cover,
                self.frame_counter == old(self).frame_counter,
                self.state == old(self).state,
                self.opening_rectangle == old(self).opening_rectangle,
            decreases 5 - i,
        {
            let b = &mut self.buttons[i];
            // Only the engine step matters to the scene; the draw data is
            // the host's to request (with a real measured width) when it
            // renders.
            let _ = b.draw(dt, 0);
            i += 1;
        }
    }
}

impl AsScene for MainScreen {
    /// Exactly five well-formed buttons, and cover image dimensions the
    /// cover layout arithmetic accepts.
    open spec fn inv(&self) -> bool {
        &&& self.buttons@.len() == 5
        &&& forall|i: int| 0 <= i < 5 ==> (#[trigger] self.buttons@[i]).wf()
        &&& 0 < self.simple_cover.img_width <= MAX_SURFACE_DIM
        &&& 0 < self.simple_cover.img_height <= MAX_SURFACE_DIM
    }

    open spec fn spec_name(&self) -> Seq<char> {
        self.name@
    }

    /// The exit command when the pointer was freshly pressed over the exit
    /// button's laid-out geometry; a stay everywhere else.
    open spec fn spec_reply(self, host: HostFrame) -> CommandView {
        if spec_exit_hit(self.buttons@, host) {
            CommandView::Exit
        } else {
            CommandView::Stay
        }
    }

    /// An update keeps the name, resizes the cover and the curtains, runs
    /// the curtain phase machine, and prepares every button (input
    /// sampling and layout); an exit tick stops there, while every other
    /// tick also runs one widget-engine step per button and counts the
    /// frame.
    open spec fn spec_step(self, host: HostFrame, after: Self) -> bool {
        &&& after.name == self.name
        &&& after.buttons@.len() == 5
        &&& after.simple_cover == (Cover {
            size: Vector2 { x: (host.screen.x - 40) as i64, y: (host.screen.y - 80) as i64 },
            ..self.simple_cover
        })
        &&& after.opening_rectangle@ == spec_curtain_rects(self, host)
        &&& after.state == spec_menu_phase(self.state, self.frame_counter).0
        &&& after.frame_counter == if spec_exit_hit(self.buttons@, host) {
            spec_menu_phase(self.state, self.frame_counter).1 as int
        } else {
            spec_count_frame(spec_menu_phase(self.state, self.frame_counter).1) as int
        }
        &&& if spec_exit_hit(self.buttons@, host) {
            forall|i: int|
                0 <= i < 5 ==> #[trigger] after.buttons@[i] == spec_prepared_button(
                    self.buttons@,
                    host,
                    i,
                )
        } else {
            forall|i: int|
                0 <= i < 5 ==> #[trigger] after.buttons@[i] == draw_step(
                    spec_prepared_button(self.buttons@, host, i),
                    host.dt_ms,
                )
        }
    }

    fn name(&self) -> (r: String) {
        self.name.clone()
    }

    /// Gives every button the menu's shared blue style.
    fn load(&mut self, host: &HostFrame)
        ensures
            spec_menu_loaded(*old(self), *final(self)),
    {
        let mut standard_style = ButtonStyle::from_default(
            Color::blue(),
            Color::lightgray(),
            Vector2::zero(),
            Vector2::zero(),
            false,
            true,
        );
        standard_style.edit_hover_style(
            Color::darkblue(),
            Color::lightgray(),
            Vector2::zero(),
            Vector2::zero(),
        );
        standard_style.edit_down_style(
            Color::darkblue(),
            Color::gray(),
            Vector2::zero(),
            Vector2::zero(),
        );
        let mut i: usize = 0;
        while i < self.buttons.len()
            invariant
                standard_style == spec_menu_style(),
                i <= self.buttons@.len(),
                self.buttons@.len() == old(self).buttons@.len(),
                self.name == old(self).name,
                self.simple_cover == old(self).simple_cover,
                self.frame_counter == old(self).frame_counter,
                self.state == old(self).state,
                self.opening_rectangle == old(self).opening_rectangle,
                forall|j: int|
                    0 <= j < i ==> #[trigger] self.buttons@[j] == (Button {
                        style: spec_menu_style(),
                        ..old(self).buttons@[j]
                    }),
                forall|j: int| i <= j < self.buttons@.len() ==> self.buttons@[j] == old(self).buttons@[j],
            decreases self.buttons@.len() - i,
        {
            let b = &mut self.buttons[i];
            b.style = standard_style;
            i += 1;
        }
    }

    /// One menu tick, exactly as the module description orders it. The
    /// exit command is returned — skipping the widget ticks and the frame
    /// count — precisely when the pointer was freshly pressed over the
    /// exit button; every other tick stays.
    fn update(&mut self, host: &HostFrame) -> (cmd: SceneCommand) {
        self.run_curtain_phase(host);
        self.sample_hover(host);
        self.layout_buttons(host);
        self.sample_down(host);

        self.simple_cover.size = Vector2 { x: host.screen.x - 40, y: host.screen.y - 80 };

        if self.buttons[2].is_hover(host.pointer) && host.mouse_pressed {
            return SceneCommand::exit_program();
        }

        self.tick_buttons(host.dt_ms);

        if self.frame_counter < i32::MAX {
            self.frame_counter = self.frame_counter + 1;
        }
        SceneCommand::continue_program()
    }

    fn unload(&mut self, host: &HostFrame)
        ensures
            *final(self) == *old(self),
    {
    }
}

} // verus!
