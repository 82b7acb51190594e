//! The opening splash scene: the title fades in, holds, fades out, and the
//! scene then jumps to the menu.
//!
//! Only the frame-counted phase machine lives here; the title's fade alpha
//! is an easing of the frame counter that the host derives when it renders.

use vstd::prelude::*;

use crate::elements::scenes::{AsScene, CommandView, HostFrame, SceneCommand};

verus! {

/// The splash scene's phase machine: phase 0 fades the title in for 210
/// frames, phase 1 holds it for 840 frames, and phase 2 fades it out,
/// asking for a jump to the menu from frame 260 on.
pub struct Opening {
    pub name: String,
    pub title: String,
    pub frame_counter: i32,
    pub state: i32,
}

/// One phase-machine step, before the end-of-tick frame increment: the
/// phase advances (resetting the counter) when its frame threshold is
/// reached.
pub open spec fn spec_opening_phase(state: i32, frame_counter: i32) -> (i32, i32) {
    if state == 0 {
        if frame_counter >= 210 {
            (1, 0)
        } else {
            (0, frame_counter)
        }
    } else if state == 1 {
        if frame_counter >= 840 {
            (2, 0)
        } else {
            (1, frame_counter)
        }
    } else {
        (state, frame_counter)
    }
}

/// True when the update that sees this phase and counter asks for the jump
/// to the menu (and therefore skips the frame increment).
pub open spec fn spec_opening_jumps(state: i32, frame_counter: i32) -> bool {
    state == 2 && frame_counter >= 260
}

impl Opening {
    /// A fresh splash scene at the start of its fade-in.
    pub fn new() -> (s: Opening)
        ensures
            s.name@ == "Opening"@,
            s.title@ == "Starframe"@,
            s.frame_counter == 0,
            s.state == 0,
            s.inv(),
    {
        Opening {
            name: "Opening".to_owned(),
            title: "Starframe".to_owned(),
            frame_counter: 0,
            state: 0,
        }
    }
}

impl AsScene for Opening {
    /// The phase is one of the three, and the counter sits within the
    /// phase's threshold (plus the one increment past it).
    open spec fn inv(&self) -> bool {
        &&& 0 <= self.state <= 2
        &&& 0 <= self.frame_counter
        &&& self.state == 0 ==> self.frame_counter <= 210
        &&& self.state == 1 ==> self.frame_counter <= 840
        &&& self.state == 2 ==> self.frame_counter <= 260
    }

    open spec fn spec_name(&self) -> Seq<char> {
        self.name@
    }

    /// The jump to the menu once phase 2 reaches its threshold; a stay
    /// everywhere else.
    open spec fn spec_reply(self, host: HostFrame) -> CommandView {
        if spec_opening_jumps(self.state, self.frame_counter) {
            CommandView::JumpTo("Menu"@)
        } else {
            CommandView::Stay
        }
    }

    /// An update keeps name and title, runs the phase machine, and counts
    /// the frame unless it asked for the jump.
    open spec fn spec_step(self, host: HostFrame, after: Self) -> bool {
        &&& after.name == self.name
        &&& after.title == self.title
        &&& after.state == spec_opening_phase(self.state, self.frame_counter).0
        &&& after.frame_counter == if spec_opening_jumps(self.state, self.frame_counter) {
            spec_opening_phase(self.state, self.frame_counter).1 as int
        } else {
            spec_opening_phase(self.state, self.frame_counter).1 + 1
        }
    }

    fn name(&self) -> (r: String) {
        self.name.clone()
    }

    fn load(&mut self, host: &HostFrame)
        ensures
            *final(self) == *old(self),
    {
    }

    /// One splash tick: run the phase machine, and either ask for the jump
    /// to the menu (phase 2, counter at or past 260) or count the frame
    /// and stay.
    fn update(&mut self, host: &HostFrame) -> (cmd: SceneCommand) {
        if self.state == 0 {
            if self.frame_counter >= 210 {
                self.state = 1;
                self.frame_counter = 0;
            }
        } else if self.state == 1 {
            if self.frame_counter >= 840 {
                self.state = 2;
                self.frame_counter = 0;
            }
        } else if self.state == 2 {
            if self.frame_counter >= 260 {
                return SceneCommand::jump_to_scene("Menu");
            }
        }
        self.frame_counter = self.frame_counter + 1;
        SceneCommand::continue_program()
    }

    fn unload(&mut self, host: &HostFrame)
        ensures
            *final(self) == *old(self),
    {
    }
}

} // verus!
