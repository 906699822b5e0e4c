//! The window's size and the parts of the surface configuration that
//! follow it, and what each window event and each failed frame calls for.
use vstd::prelude::*;
use crate::vertex::{triangle, vertices};

verus! {

/// Width and height of a window's drawable area, in physical pixels.
#[derive(Clone, Copy, Debug, PartialEq, Eq, Structural)]
pub struct PhysicalSize {
    pub width: u32,
    pub height: u32,
}

impl PhysicalSize {
    /// Whether both sides are non-zero.
    pub open spec fn has_area(self) -> bool {
        self.width > 0 && self.height > 0
    }
}

/// How finished frames are handed to the display.
#[derive(Clone, Copy, Debug, PartialEq, Eq, Structural)]
pub enum PresentMode {
    Immediate,
    Mailbox,
    Fifo,
}

/// The parts of the surface configuration that the window decides: the
/// surface's size and how frames are presented. The pixel format and usage
/// come from the GPU adapter and stay as they were first set.
#[derive(Clone, Copy, Debug, PartialEq, Eq, Structural)]
pub struct SurfaceConfig {
    pub width: u32,
    pub height: u32,
    pub present_mode: PresentMode,
}

/// Why the next frame could not be had from the surface.
#[derive(Clone, Copy, Debug, PartialEq, Eq, Structural)]
pub enum SurfaceError {
    /// Acquiring the frame took too long.
    Timeout,
    /// The surface no longer matches the window and must be reconfigured.
    Outdated,
    /// The surface was lost and must be reconfigured.
    Lost,
    /// There is no memory left for a new frame.
    OutOfMemory,
}

/// A window event, reduced to what decides the reaction to it.
#[derive(Clone, Copy, Debug, PartialEq, Eq, Structural)]
pub enum Event {
    /// A redraw was asked for; `own_window` tells whether it is for this
    /// window.
    RedrawRequested { own_window: bool },
    /// All pending events have been handled.
    MainEventsCleared,
    /// The window's close button was pressed.
    CloseRequested,
    /// A key was pressed or released; `escape` tells whether it is Escape.
    KeyboardInput { escape: bool },
    /// The window now has this size.
    Resized(PhysicalSize),
    /// The scale factor changed; `inner_size` is the window's size after it.
    ScaleFactorChanged { inner_size: PhysicalSize },
    /// Another event of the window.
    OtherWindowEvent,
    /// An event that is not of the window.
    Other,
}

/// Whether the event loop goes on waiting for events or ends.
#[derive(Clone, Copy, Debug, PartialEq, Eq, Structural)]
pub enum ControlFlow {
    Wait,
    Exit,
}

/// What the event loop does after an event or a frame.
#[derive(Clone, Copy, Debug, PartialEq, Eq, Structural)]
pub struct Step {
    /// Go on waiting, or end.
    pub control_flow: ControlFlow,
    /// Draw a frame now.
    pub render: bool,
    /// Apply the surface configuration to the surface again.
    pub reconfigure: bool,
    /// Ask the window for a redraw.
    pub request_redraw: bool,
    /// Report the surface error that the frame met.
    pub log_error: bool,
}

/// Nothing to do but wait for the next event.
pub open spec fn idle() -> Step {
    Step {
        control_flow: ControlFlow::Wait,
        render: false,
        reconfigure: false,
        request_redraw: false,
        log_error: false,
    }
}

/// The window's size, the surface configuration that follows it, and the
/// number of vertices that each frame draws.
#[derive(Clone, Copy, Debug, PartialEq, Eq, Structural)]
pub struct State {
    pub size: PhysicalSize,
    pub config: SurfaceConfig,
    pub num_vertices: u32,
}

impl State {
    /// The configuration has the state's size.
    pub open spec fn wf(self) -> bool {
        self.config.width == self.size.width && self.config.height == self.size.height
    }
}

/// `s` after the window took `new_size`: a size with area is taken by the
/// state and by the configuration; a size without area changes nothing.
pub open spec fn resized(s: State, new_size: PhysicalSize) -> State {
    if new_size.has_area() {
        State {
            size: new_size,
            config: SurfaceConfig { width: new_size.width, height: new_size.height, ..s.config },
            ..s
        }
    } else {
        s
    }
}

/// The state after `e` and what the event loop does next.
pub open spec fn on_event(s: State, e: Event) -> (State, Step) {
    match e {
        Event::RedrawRequested { own_window } => (s, Step { render: own_window, ..idle() }),
        Event::CloseRequested => (s, Step { control_flow: ControlFlow::Exit, ..idle() }),
        Event::KeyboardInput { escape } => (
            s,
            Step {
                control_flow: if escape {
                    ControlFlow::Exit
                } else {
                    ControlFlow::Wait
                },
                ..idle()
            },
        ),
        Event::Resized(size) => (
            resized(s, size),
            Step { reconfigure: size.has_area(), request_redraw: true, ..idle() },
        ),
        Event::ScaleFactorChanged { inner_size } => (
            resized(s, inner_size),
            Step { reconfigure: inner_size.has_area(), ..idle() },
        ),
        _ => (s, idle()),
    }
}

/// What the event loop does after a frame that ended with `outcome`: a lost
/// surface is configured again for the current size, running out of memory
/// ends the loop, and any other error is reported and left to the next
/// frame.
pub open spec fn after_frame(s: State, outcome: Result<(), SurfaceError>) -> Step {
    match outcome {
        Ok(()) => idle(),
        Err(SurfaceError::Lost) => Step { reconfigure: s.size.has_area(), ..idle() },
        Err(SurfaceError::OutOfMemory) => Step { control_flow: ControlFlow::Exit, ..idle() },
        Err(_) => Step { log_error: true, ..idle() },
    }
}

impl State {
    /// The state of a window of size `size`, with frames presented in
    /// display order and the triangle's vertex count.
    pub fn new(size: PhysicalSize) -> (r: State)
        ensures
            r.size == size,
            r.config == (SurfaceConfig {
                width: size.width,
                height: size.height,
                present_mode: PresentMode::Fifo,
            }),
            r.num_vertices == triangle().len(),
            r.wf(),
    {
        let vs = vertices();
        State {
            size,
            config: SurfaceConfig {
                width: size.width,
                height: size.height,
                present_mode: PresentMode::Fifo,
            },
            num_vertices: vs.len() as u32,
        }
    }

    /// Follows the window to `new_size`. A size with area becomes the
    /// state's size and the configuration's, and the result is true: the
    /// surface must be configured again. A size without area leaves the state
    /// as it was, and the result is false.
    pub fn resize(&mut self, new_size: PhysicalSize) -> (reconfigure: bool)
        ensures
            reconfigure == new_size.has_area(),
            *final(self) == resized(*old(self), new_size),
            old(self).wf() ==> final(self).wf(),
    {
        if new_size.width > 0 && new_size.height > 0 {
            self.size = new_size;
            self.config.width = new_size.width;
            self.config.height = new_size.height;
            true
        } else {
            false
        }
    }

    /// Whether the state took `event` as input of its own; it takes none.
    pub fn input(&mut self, _event: &Event) -> (r: bool)
        ensures
            !r,
            *final(self) == *old(self),
    {
        false
    }

    /// Reacts to `event`: ends the loop on a close request or on Escape,
    /// follows a new size or scale factor, and draws on a redraw of this
    /// window.
    pub fn handle_event(&mut self, event: Event) -> (r: Step)
        ensures
            (*final(self), r) == on_event(*old(self), event),
            old(self).wf() ==> final(self).wf(),
    {
        match event {
            Event::RedrawRequested { own_window } => Step {
                control_flow: ControlFlow::Wait,
                render: own_window,
                reconfigure: false,
                request_redraw: false,
                log_error: false,
            },
            Event::CloseRequested => Step {
                control_flow: ControlFlow::Exit,
                render: false,
                reconfigure: false,
                request_redraw: false,
                log_error: false,
            },
            Event::KeyboardInput { escape } => Step {
                control_flow: if escape {
                    ControlFlow::Exit
                } else {
                    ControlFlow::Wait
                },
                render: false,
                reconfigure: false,
                request_redraw: false,
                log_error: false,
            },
            Event::Resized(size) => {
                let reconfigure = self.resize(size);
                Step {
                    control_flow: ControlFlow::Wait,
                    render: false,
                    reconfigure,
                    request_redraw: true,
                    log_error: false,
                }
            },
            Event::ScaleFactorChanged { inner_size } => {
                let reconfigure = self.resize(inner_size);
                Step {
                    control_flow: ControlFlow::Wait,
                    render: false,
                    reconfigure,
                    request_redraw: false,
                    log_error: false,
                }
            },
            _ => Step {
                control_flow: ControlFlow::Wait,
                render: false,
                reconfigure: false,
                request_redraw: false,
                log_error: false,
            },
        }
    }

    /// Reacts to the outcome of a frame; a lost surface is configured again
    /// for the current size.
    pub fn after_render(&mut self, outcome: Result<(), SurfaceError>) -> (r: Step)
        ensures
            r == after_frame(*old(self), outcome),
            *final(self) == match outcome {
                Err(SurfaceError::Lost) => resized(*old(self), old(self).size),
                _ => *old(self),
            },
            old(self).wf() ==> *final(self) == *old(self),
    {
        match outcome {
            Ok(()) => Step {
                control_flow: ControlFlow::Wait,
                render: false,
                reconfigure: false,
                request_redraw: false,
                log_error: false,
            },
            Err(SurfaceError::Lost) => {
                let size = self.size;
                let reconfigure = self.resize(size);
                Step {
                    control_flow: ControlFlow::Wait,
                    render: false,
                    reconfigure,
                    request_redraw: false,
                    log_error: false,
                }
            },
            Err(SurfaceError::OutOfMemory) => Step {
                control_flow: ControlFlow::Exit,
                render: false,
                reconfigure: false,
                request_redraw: false,
                log_error: false,
            },
            Err(_) => Step {
                control_flow: ControlFlow::Wait,
                render: false,
                reconfigure: false,
                request_redraw: false,
                log_error: true,
            },
        }
    }
}

} // verus!
