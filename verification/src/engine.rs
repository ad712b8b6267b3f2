//! The decisions of the frame loop. The host owns the window, the surface and
//! the clock, runs the loop and does what these functions decide.

use crate::input::event::{ElementState, Event, PhysicalSize, VirtualKeyCode, WindowEvent};
use crate::scalar::ZERO;
use crate::scene::Scene;
use vstd::prelude::*;

verus! {

/// Why no frame could be acquired from the surface.
#[derive(Clone, Copy, Debug, PartialEq, Eq, Structural)]
pub enum SurfaceError {
    /// Acquiring the frame took too long.
    Timeout,
    /// The surface changed and has to be configured again.
    Outdated,
    /// The surface was lost and has to be recreated.
    Lost,
    /// No memory is left for a new frame.
    OutOfMemory,
}

/// Why a frame was not drawn.
#[derive(Clone, Copy, Debug, PartialEq, Eq, Structural)]
pub enum RenderError {
    /// No frame could be acquired.
    Surface(SurfaceError),
    /// The scene has no active camera.
    NoActiveCamera,
    /// The matrices of the frame do not fit the scene: a world or normal
    /// matrix is missing, or a mesh, a light or the camera names a transform
    /// that the hierarchy does not have.
    InvalidFrame,
}

/// What the frame loop does after an attempt to draw.
#[derive(Clone, Copy, Debug, PartialEq, Eq, Structural)]
pub enum FrameAction {
    /// Go on with the next frame.
    Continue,
    /// Resize the scene and the surface to the window, then go on.
    Resize,
    /// Leave the frame loop.
    Exit,
    /// Report the error, skip the frame, and go on.
    Report,
}

/// What the event loop does after an event.
#[derive(Clone, Copy, Debug, PartialEq, Eq, Structural)]
pub enum ControlFlow {
    /// Wait for the next event.
    Poll,
    /// Ask the window to redraw.
    RequestRedraw,
    /// Draw a frame.
    Render,
    /// Leave the event loop.
    Exit,
}

/// What handling an event came to: how the event loop goes on, the key that
/// was pressed, for the keyboard hooks of the host, and whether the surface
/// has a new size and has to be configured again.
#[derive(Clone, Copy, Debug, PartialEq, Eq, Structural)]
pub struct EventOutcome {
    pub control_flow: ControlFlow,
    pub key_pressed: Option<VirtualKeyCode>,
    pub surface_resized: bool,
}

/// Size of the surface that frames are drawn to.
#[derive(Clone, Copy, Debug, PartialEq, Eq, Structural)]
pub struct SurfaceConfiguration {
    pub width: u32,
    pub height: u32,
}

/// The engine's view of the surface and of time.
#[derive(Clone, Copy, Debug, PartialEq, Eq)]
pub struct Engine {
    pub config: SurfaceConfiguration,
    pub elapsed_time: u32,
    pub delta_time: u32,
}

/// What is done after an attempt to draw: a lost surface is resized, an
/// exhausted memory ends the loop, any other error is reported and the frame
/// skipped.
pub open spec fn action_after(result: Result<(), RenderError>) -> FrameAction {
    match result {
        Ok(_) => FrameAction::Continue,
        Err(RenderError::Surface(SurfaceError::Lost)) => FrameAction::Resize,
        Err(RenderError::Surface(SurfaceError::OutOfMemory)) => FrameAction::Exit,
        Err(_) => FrameAction::Report,
    }
}

/// Whether a window event ends the event loop: a request to close the
/// window, or the escape key pressed.
pub open spec fn closes(event: WindowEvent) -> bool {
    match event {
        WindowEvent::CloseRequested => true,
        WindowEvent::KeyboardInput {
            state: ElementState::Pressed,
            virtual_keycode: Some(VirtualKeyCode::Escape),
        } => true,
        _ => false,
    }
}

/// The size that a window event brings, if it brings one.
pub open spec fn size_in(event: WindowEvent) -> Option<PhysicalSize> {
    match event {
        WindowEvent::Resized { size, aspect_ratio } => Some(size),
        WindowEvent::ScaleFactorChanged { new_inner_size, aspect_ratio } => Some(new_inner_size),
        _ => None,
    }
}

impl Engine {
    /// An engine for a surface of the given size, at time zero.
    pub fn new(width: u32, height: u32) -> (engine: Engine)
        ensures
            engine.config == (SurfaceConfiguration { width, height }),
            engine.elapsed_time == ZERO,
            engine.delta_time == ZERO,
    {
        Engine {
            config: SurfaceConfiguration { width, height },
            elapsed_time: ZERO,
            delta_time: ZERO,
        }
    }

    pub fn get_delta_time(&self) -> (t: u32)
        ensures
            t == self.delta_time,
    {
        self.delta_time
    }

    pub fn get_elapsed_time(&self) -> (t: u32)
        ensures
            t == self.elapsed_time,
    {
        self.elapsed_time
    }

    /// Takes the time that the host read from its clock at the start of a
    /// frame: the time since the start, and the time since the frame before.
    pub fn advance(&mut self, elapsed_time: u32, delta_time: u32)
        ensures
            final(self).elapsed_time == elapsed_time,
            final(self).delta_time == delta_time,
            final(self).config == old(self).config,
    {
        self.delta_time = delta_time;
        self.elapsed_time = elapsed_time;
    }

    /// Takes a new size for the surface unless it has no area. Returns
    /// whether the size was taken; the host then configures the surface again.
    pub fn resize(&mut self, new_size: PhysicalSize) -> (resized: bool)
        ensures
            resized == (new_size.width > 0 && new_size.height > 0),
            final(self).config == if resized {
                SurfaceConfiguration { width: new_size.width, height: new_size.height }
            } else {
                old(self).config
            },
            final(self).elapsed_time == old(self).elapsed_time,
            final(self).delta_time == old(self).delta_time,
    {
        if new_size.width > 0 && new_size.height > 0 {
            self.config.width = new_size.width;
            self.config.height = new_size.height;
            true
        } else {
            false
        }
    }

    /// Resizes the surface when the window was resized. Returns whether the
    /// host has to configure the surface again.
    pub fn manage_event(&mut self, event: &WindowEvent) -> (resized: bool)
        ensures
            resized == (size_in(*event) matches Some(size) && size.width > 0 && size.height > 0),
            final(self).config == match size_in(*event) {
                Some(size) if resized => SurfaceConfiguration {
                    width: size.width,
                    height: size.height,
                },
                _ => old(self).config,
            },
            final(self).elapsed_time == old(self).elapsed_time,
            final(self).delta_time == old(self).delta_time,
    {
        match event {
            WindowEvent::Resized { size, aspect_ratio } => self.resize(*size),
            WindowEvent::ScaleFactorChanged { new_inner_size, aspect_ratio } => self.resize(
                *new_inner_size,
            ),
            _ => false,
        }
    }

    /// Whether `event` ends the event loop.
    pub fn should_close(event: &WindowEvent) -> (b: bool)
        ensures
            b == closes(*event),
    {
        match event {
            WindowEvent::CloseRequested => true,
            WindowEvent::KeyboardInput {
                state: ElementState::Pressed,
                virtual_keycode: Some(VirtualKeyCode::Escape),
            } => true,
            _ => false,
        }
    }

    /// What the frame loop does after an attempt to draw.
    pub fn after_render(result: &Result<(), RenderError>) -> (action: FrameAction)
        ensures
            action == action_after(*result),
    {
        match result {
            Ok(_) => FrameAction::Continue,
            Err(RenderError::Surface(SurfaceError::Lost)) => FrameAction::Resize,
            Err(RenderError::Surface(SurfaceError::OutOfMemory)) => FrameAction::Exit,
            Err(_) => FrameAction::Report,
        }
    }

    /// Takes an event of the event loop. A window event goes to the engine
    /// and to the scene, and ends the loop if it closes the window. A
    /// request to redraw asks for a frame. When all events are handled, the
    /// window is asked to redraw.
    pub fn on_event(&mut self, scene: &mut Scene, event: &Event) -> (outcome: EventOutcome)
        requires
            old(scene).transforms.well_formed(),
        ensures
            final(self).elapsed_time == old(self).elapsed_time,
            final(self).delta_time == old(self).delta_time,
            match *event {
                Event::Window(window_event) => {
                    &&& final(scene).after_event(old(scene), window_event)
                    &&& outcome.key_pressed == Scene::key_pressed(window_event)
                    &&& outcome.surface_resized == (size_in(window_event) matches Some(size)
                        && size.width > 0 && size.height > 0)
                    &&& final(self).config == match size_in(window_event) {
                        Some(size) if outcome.surface_resized => SurfaceConfiguration {
                            width: size.width,
                            height: size.height,
                        },
                        _ => old(self).config,
                    }
                    &&& outcome.control_flow == if closes(window_event) {
                        ControlFlow::Exit
                    } else {
                        ControlFlow::Poll
                    }
                },
                other => {
                    &&& *final(scene) == *old(scene)
                    &&& final(self).config == old(self).config
                    &&& outcome.key_pressed is None
                    &&& !outcome.surface_resized
                    &&& outcome.control_flow == match other {
                        Event::RedrawRequested => ControlFlow::Render,
                        Event::MainEventsCleared => ControlFlow::RequestRedraw,
                        _ => ControlFlow::Poll,
                    }
                },
            },
    {
        match event {
            Event::Window(window_event) => {
                let surface_resized = self.manage_event(window_event);
                let key_pressed = scene.manage_event(window_event);
                let control_flow = if Self::should_close(window_event) {
                    ControlFlow::Exit
                } else {
                    ControlFlow::Poll
                };
                EventOutcome { control_flow, key_pressed, surface_resized }
            },
            Event::RedrawRequested => EventOutcome {
                control_flow: ControlFlow::Render,
                key_pressed: None,
                surface_resized: false,
            },
            Event::MainEventsCleared => EventOutcome {
                control_flow: ControlFlow::RequestRedraw,
                key_pressed: None,
                surface_resized: false,
            },
            Event::Other => EventOutcome {
                control_flow: ControlFlow::Poll,
                key_pressed: None,
                surface_resized: false,
            },
        }
    }

    /// Closes a frame. After a lost surface, the scene and the surface take
    /// the size of the window, `window_size`, whose width over its height is
    /// `aspect_ratio`; the host then configures the surface again. Returns
    /// what the frame loop does next.
    pub fn finish_frame(
        &mut self,
        scene: &mut Scene,
        result: &Result<(), RenderError>,
        window_size: PhysicalSize,
        aspect_ratio: u32,
    ) -> (action: FrameAction)
        ensures
            action == action_after(*result),
            final(self).elapsed_time == old(self).elapsed_time,
            final(self).delta_time == old(self).delta_time,
            action != FrameAction::Resize ==> *final(scene) == *old(scene) && final(self).config
                == old(self).config,
            action == FrameAction::Resize ==> {
                &&& *final(scene) == (Scene {
                    active_camera: match old(scene).active_camera {
                        Some(camera) if window_size.height > 0 => Some(
                            crate::camera::camera::Camera { aspect_ratio, ..camera },
                        ),
                        _ => old(scene).active_camera,
                    },
                    ..*old(scene)
                })
                &&& final(self).config == if window_size.width > 0 && window_size.height > 0 {
                    SurfaceConfiguration { width: window_size.width, height: window_size.height }
                } else {
                    old(self).config
                }
            },
    {
        let action = Self::after_render(result);
        match action {
            FrameAction::Resize => {
                scene.resize(window_size, aspect_ratio);
                self.resize(window_size);
            },
            _ => {},
        }
        action
    }
}

} // verus!
