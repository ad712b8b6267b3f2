//! Window events as the scene and the engine read them. The host fills them
//! from the events of its window system; where an event calls for arithmetic
//! on scalars, the host has done it and the event carries the result.

use vstd::prelude::*;

verus! {

/// A size in physical pixels.
#[derive(Clone, Copy, Debug, PartialEq, Eq, Structural)]
pub struct PhysicalSize {
    pub width: u32,
    pub height: u32,
}

/// State of a key or a button.
#[derive(Clone, Copy, Debug, PartialEq, Eq, Structural)]
pub enum ElementState {
    Pressed,
    Released,
}

/// A mouse button.
#[derive(Clone, Copy, Debug, PartialEq, Eq, Structural)]
pub enum MouseButton {
    Left,
    Right,
    Middle,
    Other(u16),
}

/// A key: the escape key, or another one by the code of the window system.
#[derive(Clone, Copy, Debug, PartialEq, Eq, Structural)]
pub enum VirtualKeyCode {
    Escape,
    Other(u32),
}

/// An event of the window.
#[derive(Clone, Copy, Debug, PartialEq, Eq)]
pub enum WindowEvent {
    /// The window has a new size; `aspect_ratio` is its width over its
    /// height.
    Resized { size: PhysicalSize, aspect_ratio: u32 },
    /// The scale factor changed and with it the size; `aspect_ratio` is the
    /// new width over the new height.
    ScaleFactorChanged { new_inner_size: PhysicalSize, aspect_ratio: u32 },
    /// The user asked to close the window.
    CloseRequested,
    /// A key was pressed or released.
    KeyboardInput { state: ElementState, virtual_keycode: Option<VirtualKeyCode> },
    /// The cursor moved to `position`, by `delta` from where it was.
    CursorMoved { position: [u32; 2], delta: [u32; 2] },
    /// A mouse button was pressed or released.
    MouseInput { state: ElementState, button: MouseButton },
    /// The wheel was turned by `lines` rows; `zoomed_position` is where that
    /// takes the camera: a tenth of a unit per row toward the origin.
    MouseWheel { lines: u32, zoomed_position: [u32; 3] },
    /// Any other event.
    Other,
}

/// An event of the event loop.
#[derive(Clone, Copy, Debug, PartialEq, Eq)]
pub enum Event {
    /// An event of the engine's window.
    Window(WindowEvent),
    /// The window has to be drawn.
    RedrawRequested,
    /// All pending events have been handled.
    MainEventsCleared,
    /// Any other event.
    Other,
}

} // verus!
