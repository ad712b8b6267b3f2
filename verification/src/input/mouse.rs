use crate::input::event::{ElementState, MouseButton, WindowEvent};
use crate::scalar::ZERO;
use vstd::prelude::*;

verus! {

/// Where the cursor is, how far it moved with the last event, and which
/// buttons are held.
#[derive(Clone, Copy, Debug, PartialEq, Eq)]
pub struct Mouse {
    pub position: [u32; 2],
    pub delta: [u32; 2],
    pub left_button_pressed: bool,
    pub right_button_pressed: bool,
    pub middle_button_pressed: bool,
}

impl Mouse {
    /// The mouse at rest in the corner of the window, no button held.
    pub open spec fn at_rest(self) -> bool {
        &&& self.position@ == seq![ZERO, ZERO]
        &&& self.delta@ == seq![ZERO, ZERO]
        &&& !self.left_button_pressed
        &&& !self.right_button_pressed
        &&& !self.middle_button_pressed
    }

    /// The mouse after `event`: a cursor move sets position and delta, any
    /// other event leaves the position and clears the delta; pressing and
    /// releasing the left button is tracked, the other buttons are not.
    pub open spec fn after(self, before: Mouse, event: WindowEvent) -> bool {
        &&& match event {
            WindowEvent::CursorMoved { position, delta } => self.position == position && self.delta
                == delta,
            _ => self.position == before.position && self.delta@ == seq![ZERO, ZERO],
        }
        &&& self.left_button_pressed == match event {
            WindowEvent::MouseInput { state: ElementState::Pressed, button: MouseButton::Left } => true,
            WindowEvent::MouseInput {
                state: ElementState::Released,
                button: MouseButton::Left,
            } => false,
            _ => before.left_button_pressed,
        }
        &&& self.right_button_pressed == before.right_button_pressed
        &&& self.middle_button_pressed == before.middle_button_pressed
    }

    pub fn new() -> (mouse: Mouse)
        ensures
            mouse.at_rest(),
    {
        Mouse {
            position: [ZERO, ZERO],
            delta: [ZERO, ZERO],
            left_button_pressed: false,
            right_button_pressed: false,
            middle_button_pressed: false,
        }
    }

    pub fn listen_to_event(&mut self, event: &WindowEvent)
        ensures
            final(self).after(*old(self), *event),
    {
        match event {
            WindowEvent::CursorMoved { position, delta } => {
                self.delta = *delta;
                self.position = *position;
            },
            _ => {
                self.delta = [ZERO, ZERO];
            },
        }
        match event {
            WindowEvent::MouseInput { state: ElementState::Pressed, button: MouseButton::Left } => {
                self.left_button_pressed = true;
            },
            WindowEvent::MouseInput { state: ElementState::Released, button: MouseButton::Left } => {
                self.left_button_pressed = false;
            },
            _ => {},
        }
    }
}

impl Default for Mouse {
    fn default() -> (mouse: Mouse)
        ensures
            mouse.at_rest(),
    {
        Mouse::new()
    }
}

} // verus!
