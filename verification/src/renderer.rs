//! What the frame renderer keeps track of besides its handles: the size of
//! the surface, what to draw, and what to do on each event of the window.

use crate::geometry::{INDICES, NUM_VERTICES};
use vstd::prelude::*;

verus! {

/// A size in physical pixels.
#[derive(Clone, Copy, Debug, PartialEq, Eq, Structural)]
pub struct PhysicalSize {
    /// Width in pixels.
    pub width: u32,
    /// Height in pixels.
    pub height: u32,
}

impl PhysicalSize {
    /// Whether a surface can have this size: neither dimension is zero.
    pub open spec fn has_area(self) -> bool {
        self.width > 0 && self.height > 0
    }
}

/// Why no image of the surface could be had for the next frame.
#[derive(Clone, Copy, Debug, PartialEq, Eq, Structural)]
pub enum SurfaceError {
    /// Waiting for the image took too long.
    Timeout,
    /// The surface has changed under the swap chain.
    Outdated,
    /// The swap chain is lost and has to be made anew.
    Lost,
    /// No memory is left for another frame.
    OutOfMemory,
}

/// What a window reports.
#[derive(Clone, Copy, Debug, PartialEq, Eq, Structural)]
pub enum WindowEvent {
    /// The window has the given size now.
    Resized(PhysicalSize),
    /// The scale factor changed, which gives the window a new size.
    ScaleFactorChanged {
        /// The size that goes with the new scale factor.
        new_inner_size: PhysicalSize,
    },
    /// The user asked to close the window.
    CloseRequested,
    /// The escape key went down.
    EscapePressed,
    /// Anything else.
    Other,
}

/// What the event loop reports.
#[derive(Clone, Copy, Debug, PartialEq, Eq, Structural)]
pub enum Event {
    /// An event of the renderer's own window.
    Window(WindowEvent),
    /// All pending events were handed out.
    MainEventsCleared,
    /// The renderer's own window is to be drawn again.
    RedrawRequested,
    /// Anything else.
    Other,
}

/// What the event loop is to do next.
#[derive(Clone, Copy, Debug, PartialEq, Eq, Structural)]
pub enum Command {
    /// Nothing.
    Idle,
    /// Configure the surface with the renderer's surface configuration.
    Configure,
    /// Ask for the window to be drawn again.
    RequestRedraw,
    /// Render one frame and report how it went.
    Render,
    /// Log the error and go on.
    Report(SurfaceError),
    /// Leave the event loop.
    Exit,
}

/// One indexed draw call.
#[derive(Clone, Copy, Debug, PartialEq, Eq, Structural)]
pub struct DrawCall {
    /// The first index drawn.
    pub first_index: u32,
    /// The index after the last one drawn.
    pub end_index: u32,
    /// What is added to each index.
    pub base_vertex: i32,
    /// The first instance drawn.
    pub first_instance: u32,
    /// The instance after the last one drawn.
    pub end_instance: u32,
}

/// The mathematical content of an [`App`].
pub struct AppView {
    /// The size of the window's surface.
    pub size: PhysicalSize,
    /// The size that the surface is configured with.
    pub surface_config: PhysicalSize,
    /// The number of vertices in the vertex buffer.
    pub num_vertices: u32,
    /// The number of indices in the index buffer.
    pub num_indices: u32,
}

impl AppView {
    /// The renderer after a request to resize to `size`: a size without area
    /// changes nothing.
    pub open spec fn resized(self, size: PhysicalSize) -> Self {
        if size.has_area() {
            AppView { size, surface_config: size, ..self }
        } else {
            self
        }
    }

    /// The draw call of a frame: every index once, one instance.
    pub open spec fn draw_call(self) -> DrawCall {
        DrawCall {
            first_index: 0,
            end_index: self.num_indices,
            base_vertex: 0,
            first_instance: 0,
            end_instance: 1,
        }
    }

    /// The renderer after `event`.
    pub open spec fn after_event(self, event: Event) -> Self {
        match event {
            Event::Window(WindowEvent::Resized(size)) => self.resized(size),
            Event::Window(WindowEvent::ScaleFactorChanged { new_inner_size }) => self.resized(
                new_inner_size,
            ),
            _ => self,
        }
    }

    /// What the event loop is to do after `event`.
    pub open spec fn command_for(self, event: Event) -> Command {
        match event {
            Event::Window(WindowEvent::Resized(size)) => if size.has_area() {
                Command::Configure
            } else {
                Command::Idle
            },
            Event::Window(WindowEvent::ScaleFactorChanged { new_inner_size }) => if new_inner_size.has_area() {
                Command::Configure
            } else {
                Command::Idle
            },
            Event::Window(WindowEvent::CloseRequested) => Command::Exit,
            Event::Window(WindowEvent::EscapePressed) => Command::Exit,
            Event::Window(WindowEvent::Other) => Command::Idle,
            Event::MainEventsCleared => Command::RequestRedraw,
            Event::RedrawRequested => Command::Render,
            Event::Other => Command::Idle,
        }
    }

    /// The renderer after a frame that ended with `outcome`: a lost swap chain
    /// makes it take its current size anew.
    pub open spec fn after_frame(self, outcome: Result<(), SurfaceError>) -> Self {
        match outcome {
            Err(SurfaceError::Lost) => self.resized(self.size),
            _ => self,
        }
    }

    /// What the event loop is to do after a frame that ended with `outcome`.
    pub open spec fn command_after(self, outcome: Result<(), SurfaceError>) -> Command {
        match outcome {
            Ok(_) => Command::Idle,
            Err(SurfaceError::Lost) => if self.size.has_area() {
                Command::Configure
            } else {
                Command::Idle
            },
            Err(SurfaceError::OutOfMemory) => Command::Exit,
            Err(error) => Command::Report(error),
        }
    }
}

/// A request to resize to a size without area changes neither the size nor
/// the configuration of the surface, nor what the next frame draws.
pub proof fn lemma_resize_without_area_is_ignored(app: AppView, size: PhysicalSize)
    requires
        size.width == 0 || size.height == 0,
    ensures
        app.resized(size) == app,
        app.resized(size).surface_config == app.surface_config,
        app.resized(size).draw_call() == app.draw_call(),
        app.after_event(Event::Window(WindowEvent::Resized(size))) == app,
        app.command_for(Event::Window(WindowEvent::Resized(size))) == Command::Idle,
{
}

/// The renderer's bookkeeping.
pub struct App {
    /// The size of the window's surface.
    pub size: PhysicalSize,
    surface_config: PhysicalSize,
    num_vertices: u32,
    num_indices: u32,
}

impl View for App {
    type V = AppView;

    closed spec fn view(&self) -> AppView {
        AppView {
            size: self.size,
            surface_config: self.surface_config,
            num_vertices: self.num_vertices,
            num_indices: self.num_indices,
        }
    }
}

impl App {
    /// A renderer for a window whose surface has the size `size`. The surface
    /// is configured with that size, and the buffers hold the pentagon.
    pub fn new(size: PhysicalSize) -> (app: Self)
        ensures
            app@ == (AppView {
                size,
                surface_config: size,
                num_vertices: NUM_VERTICES,
                num_indices: INDICES@.len() as u32,
            }),
    {
        App { size, surface_config: size, num_vertices: NUM_VERTICES, num_indices: 9 }
    }

    /// The size of the window's surface.
    pub fn size(&self) -> (size: PhysicalSize)
        ensures
            size == self@.size,
    {
        self.size
    }

    /// The size that the surface is configured with.
    pub fn surface_config(&self) -> (config: PhysicalSize)
        ensures
            config == self@.surface_config,
    {
        self.surface_config
    }

    /// The number of vertices in the vertex buffer.
    pub fn num_vertices(&self) -> (count: u32)
        ensures
            count == self@.num_vertices,
    {
        self.num_vertices
    }

    /// The number of indices in the index buffer.
    pub fn num_indices(&self) -> (count: u32)
        ensures
            count == self@.num_indices,
    {
        self.num_indices
    }

    /// Takes note of a new size of the surface. A size without area is
    /// ignored. Tells whether the surface has to be configured anew.
    pub fn resize(&mut self, size: PhysicalSize) -> (configure: bool)
        ensures
            final(self)@ == old(self)@.resized(size),
            configure == size.has_area(),
            !size.has_area() ==> final(self)@ == old(self)@,
    {
        if size.width > 0 && size.height > 0 {
            self.size = size;
            self.surface_config.width = size.width;
            self.surface_config.height = size.height;
            true
        } else {
            false
        }
    }

    /// Whether the renderer uses up `event` itself. It uses up none.
    pub fn input(&mut self, event: &WindowEvent) -> (consumed: bool)
        ensures
            !consumed,
            final(self)@ == old(self)@,
    {
        false
    }

    /// Advances what is shown by one frame. Nothing moves, so nothing changes.
    pub fn update(&mut self)
        ensures
            final(self)@ == old(self)@,
    {
    }

    /// The draw call of a frame: every index of the index buffer once, one
    /// instance.
    pub fn draw_call(&self) -> (call: DrawCall)
        ensures
            call == self@.draw_call(),
    {
        DrawCall {
            first_index: 0,
            end_index: self.num_indices,
            base_vertex: 0,
            first_instance: 0,
            end_instance: 1,
        }
    }

    /// Handles one event of the event loop and tells what to do next.
    pub fn on_event(&mut self, event: Event) -> (command: Command)
        ensures
            final(self)@ == old(self)@.after_event(event),
            command == old(self)@.command_for(event),
    {
        match event {
            Event::Window(window_event) => {
                if self.input(&window_event) {
                    return Command::Idle;
                }
                match window_event {
                    WindowEvent::Resized(size) => self.configure_for(size),
                    WindowEvent::ScaleFactorChanged { new_inner_size } => self.configure_for(
                        new_inner_size,
                    ),
                    WindowEvent::CloseRequested => Command::Exit,
                    WindowEvent::EscapePressed => Command::Exit,
                    WindowEvent::Other => Command::Idle,
                }
            },
            Event::MainEventsCleared => Command::RequestRedraw,
            Event::RedrawRequested => {
                self.update();
                Command::Render
            },
            Event::Other => Command::Idle,
        }
    }

    /// Tells what to do after a frame that ended with `outcome`: a lost swap
    /// chain is configured anew at the current size, exhausted memory ends the
    /// loop, and any other error is reported.
    pub fn after_render(&mut self, outcome: Result<(), SurfaceError>) -> (command: Command)
        ensures
            final(self)@ == old(self)@.after_frame(outcome),
            command == old(self)@.command_after(outcome),
    {
        match outcome {
            Ok(_) => Command::Idle,
            Err(SurfaceError::Lost) => {
                let size = self.size;
                self.configure_for(size)
            },
            Err(SurfaceError::OutOfMemory) => Command::Exit,
            Err(error) => Command::Report(error),
        }
    }

    /// Resizes and says whether the surface is to be configured.
    fn configure_for(&mut self, size: PhysicalSize) -> (command: Command)
        ensures
            final(self)@ == old(self)@.resized(size),
            command == if size.has_area() {
                Command::Configure
            } else {
                Command::Idle
            },
    {
        if self.resize(size) {
            Command::Configure
        } else {
            Command::Idle
        }
    }
}

} // verus!
