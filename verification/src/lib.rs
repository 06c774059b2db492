//! A headless model of a transparent, always-on-top overlay surface: the shared
//! window state with its staged configuration, the window and frame
//! controllers, the event dispatcher, and the raster primitives that draw into
//! an RGBA frame buffer.
//!
//! The library never touches a display. Controllers record what the platform
//! has to do as [`window::WindowCommand`] values, and platform signals come
//! back in as [`window::PlatformEvent`] values.

pub mod buffer;
pub mod color;
pub mod geometry;
pub mod image;
pub mod text;
pub mod types;
pub mod window;

pub use crate::buffer::{
    create_rgba_buffer, draw_circle, draw_line, draw_pixel, fill_buffer_color,
};
pub use crate::color::{
    blend_colors, color_black, color_blue, color_cyan, color_dark_gray, color_gray,
    color_green, color_light_gray, color_magenta, color_orange, color_pink, color_red,
    color_to_hex, color_to_rgb_hex, color_to_rgba, color_transparent, color_white,
    color_yellow, create_color, lerp_colors, Color,
};
pub use crate::types::{
    create_position, create_size, DecodedImage, LineParams, OverlayError, OverlayEvent,
    WindowConfig, WindowLevel, WindowPosition, WindowSize,
};

use crate::buffer::{frame_len, painted, rectangle_painted, RectangleParams};
use crate::types::WindowConfigView;
use crate::window::{
    already_created_text, frame_too_large_text, live_outcome, position_failure_text,
    resize_failure_text, size_mismatch_text, staged_outcome, surface_failure_text, window_failure_text,
    CreationFailure, CreationPlan, FrameController, Lifecycle, PendingView, PlatformEvent,
    SurfaceInfo, WindowCommand, WindowController, WindowModelView, WindowState,
    WindowStateView,
};
use vstd::prelude::*;

verus! {

/// Size in bytes of a `width` by `height` RGBA buffer, as a `u32`.
pub fn calculate_buffer_size(width: u32, height: u32) -> (size: u32)
    requires
        frame_len(width as int, height as int) <= u32::MAX,
    ensures
        size == frame_len(width as int, height as int),
{
    crate::buffer::calculate_buffer_size_napi(width, height)
}

/// Accepts a fill request for a shared buffer, which cannot be written in
/// place: the buffer stays as it is and the request succeeds. Use
/// [`fill_buffer_color`] for a filled copy.
pub fn fill_buffer_rgba(buffer: &[u8], _r: u8, _g: u8, _b: u8, _a: u8) -> (result: Result<
    (),
    OverlayError,
>)
    ensures
        result is Ok,
{
    Ok(())
}

/// An overlay surface: the shared state behind one handle, with the window
/// and frame operations that callers use most. Setters that are issued
/// before the surface exists stage their values for its creation.
pub struct Overlay {
    state: WindowState,
}

impl View for Overlay {
    type V = WindowStateView;

    closed spec fn view(&self) -> WindowStateView {
        self.state@
    }
}

impl Default for Overlay {
    fn default() -> (overlay: Overlay)
        ensures
            overlay@ == WindowStateView::initial(),
            overlay.wf(),
    {
        Overlay::new()
    }
}

impl Overlay {
    /// The invariant of the state; see [`WindowStateView::wf`].
    pub open spec fn wf(&self) -> bool {
        self@.wf()
    }

    /// An overlay without window, surface or staged values.
    pub fn new() -> (overlay: Overlay)
        ensures
            overlay@ == WindowStateView::initial(),
            overlay.wf(),
    {
        Overlay { state: WindowState::new() }
    }

    /// The shared state.
    pub fn state(&self) -> (state: &WindowState)
        ensures
            state@ == self@,
    {
        &self.state
    }

    /// The shared state, for the controllers: what they do to it is done to
    /// the overlay.
    pub fn state_mut(&mut self) -> (state: &mut WindowState)
        ensures
            state@ == old(self)@,
            final(self)@ == final(state)@,
    {
        &mut self.state
    }

    /// Hands the queued commands to the embedding and empties the queue.
    pub fn take_commands(&mut self) -> (commands: Vec<WindowCommand>)
        ensures
            commands@ == old(self)@.commands,
            final(self)@ == (WindowStateView { commands: Seq::empty(), ..old(self)@ }),
            old(self).wf() ==> final(self).wf(),
    {
        self.state.take_commands()
    }

    /// Begins the creation of the surface with the staged values merged
    /// over `config`; see [`WindowState::begin_creation`].
    pub fn create(&mut self, config: WindowConfig) -> (result: Result<CreationPlan, OverlayError>)
        requires
            old(self).wf(),
        ensures
            final(self).wf(),
            old(self)@.lifecycle is Uninitialized ==> {
                &&& result matches Ok(plan)
                &&& plan@ == old(self)@.plan(config@)
                &&& final(self)@ == old(self)@.creating(config@)
            },
            !(old(self)@.lifecycle is Uninitialized) ==> {
                &&& result matches Err(OverlayError::PlatformFailure(message))
                &&& message@ == window_failure_text(already_created_text())
                &&& final(self)@ == old(self)@
            },
    {
        self.state.begin_creation(config)
    }

    /// Begins the creation of the surface with the staged values and the
    /// defaults: the plan of the window to build is returned and the overlay
    /// enters `Creating`. The embedding builds the window and reports with
    /// [`Overlay::finish_start`], then feeds the platform's signals to
    /// [`Overlay::handle_event`].
    pub fn start(&mut self) -> (result: Result<CreationPlan, OverlayError>)
        requires
            old(self).wf(),
        ensures
            final(self).wf(),
            old(self)@.lifecycle is Uninitialized ==> {
                &&& result matches Ok(plan)
                &&& plan@ == old(self)@.plan(WindowConfigView::empty())
                &&& final(self)@ == old(self)@.creating(WindowConfigView::empty())
            },
            !(old(self)@.lifecycle is Uninitialized) ==> {
                &&& result matches Err(OverlayError::PlatformFailure(message))
                &&& message@ == window_failure_text(already_created_text())
                &&& final(self)@ == old(self)@
            },
    {
        self.create(WindowConfig::default())
    }

    /// Ends the creation that [`Overlay::start`] began; see
    /// [`WindowState::finish_creation`].
    pub fn finish_start(
        &mut self,
        plan: CreationPlan,
        created: Result<SurfaceInfo, CreationFailure>,
    ) -> (result: Result<(), OverlayError>)
        requires
            old(self).wf(),
        ensures
            final(self).wf(),
            !(old(self)@.lifecycle is Creating) ==> {
                &&& result matches Err(OverlayError::NotInitialized)
                &&& final(self)@ == old(self)@
            },
            old(self)@.lifecycle is Creating ==> match created {
                Ok(info) => if frame_len(info.size.width as int, info.size.height as int)
                    <= usize::MAX {
                    &&& result is Ok
                    &&& final(self)@ == old(self)@.created(plan@, info@)
                } else {
                    &&& result matches Err(OverlayError::PlatformFailure(message))
                    &&& message@ == surface_failure_text(frame_too_large_text())
                    &&& final(self)@ == old(self)@.creation_failed()
                },
                Err(CreationFailure::Window(detail)) => {
                    &&& result matches Err(OverlayError::PlatformFailure(message))
                    &&& message@ == window_failure_text(detail@)
                    &&& final(self)@ == old(self)@.creation_failed()
                },
                Err(CreationFailure::Surface(detail)) => {
                    &&& result matches Err(OverlayError::PlatformFailure(message))
                    &&& message@ == surface_failure_text(detail@)
                    &&& final(self)@ == old(self)@.creation_failed()
                },
            },
    {
        self.state.finish_creation(plan, created)
    }

    /// Applies a platform signal as [`WindowState::handle_event`] does, and
    /// keeps the window redrawing: when the platform has delivered all
    /// pending events and the overlay is `Ready`, a redraw is requested.
    /// Returns whether the event loop is to end.
    pub fn handle_event(&mut self, event: PlatformEvent) -> (exit: bool)
        requires
            old(self).wf(),
        ensures
            final(self).wf(),
            exit == old(self)@.exits_on(event),
            event is MainEventsCleared && old(self)@.lifecycle is Ready ==> final(self)@ == old(
                self,
            )@.emit(WindowCommand::RequestRedraw),
            !(event is MainEventsCleared && old(self)@.lifecycle is Ready) ==> final(self)@ == old(
                self,
            )@.after_event(event),
    {
        match event {
            PlatformEvent::MainEventsCleared => {
                let controller = WindowController::new();
                let _ = controller.request_redraw(&mut self.state);
                false
            },
            _ => self.state.handle_event(event),
        }
    }

    /// Ends a resize of the surface with the backend's answer; see
    /// [`FrameController::finish_resize`].
    pub fn finish_resize(&mut self, size: WindowSize, outcome: Result<(), String>) -> (result:
        Result<(), OverlayError>)
        requires
            old(self).wf(),
        ensures
            final(self).wf(),
            !(old(self)@.lifecycle is Ready) ==> {
                &&& live_outcome(old(self)@.lifecycle, result)
                &&& final(self)@ == old(self)@
            },
            old(self)@.lifecycle is Ready ==> match outcome {
                Ok(_) => if frame_len(size.width as int, size.height as int) <= usize::MAX {
                    &&& result is Ok
                    &&& final(self)@ == old(self)@.surface_resized(size)
                } else {
                    &&& result matches Err(OverlayError::PlatformFailure(message))
                    &&& message@ == resize_failure_text(frame_too_large_text())
                    &&& final(self)@ == old(self)@
                },
                Err(detail) => {
                    &&& result matches Err(OverlayError::PlatformFailure(message))
                    &&& message@ == resize_failure_text(detail@)
                    &&& final(self)@ == old(self)@
                },
            },
    {
        FrameController::new().finish_resize(&mut self.state, size, outcome)
    }

    /// Replaces the frame; see [`FrameController::update_frame`].
    pub fn update_frame(&mut self, buffer: &[u8]) -> (result: Result<(), OverlayError>)
        requires
            old(self).wf(),
        ensures
            final(self).wf(),
            old(self)@.lifecycle is Ready ==> if buffer@.len() == old(self)@.frame.len() {
                &&& result is Ok
                &&& final(self)@ == old(self)@.with_frame(buffer@).emit(
                    WindowCommand::RequestRedraw,
                )
            } else {
                &&& result matches Err(OverlayError::InvalidArgument(message))
                &&& message@ == size_mismatch_text(old(self)@.frame.len(), buffer@.len())
                &&& final(self)@ == old(self)@
            },
            old(self)@.lifecycle is Uninitialized ==> {
                &&& result is Ok
                &&& final(self)@ == old(self)@.with_pending(
                    PendingView { initial_frame: Some(buffer@), ..old(self)@.staged() },
                )
            },
            !(old(self)@.lifecycle is Ready) && !(old(self)@.lifecycle is Uninitialized) ==> {
                &&& live_outcome(old(self)@.lifecycle, result)
                &&& final(self)@ == old(self)@
            },
    {
        FrameController::new().update_frame(&mut self.state, buffer)
    }

    /// The declared width and height of the frame, in that order.
    pub fn get_frame_size(&self) -> (result: Result<Vec<u32>, OverlayError>)
        requires
            self.wf(),
        ensures
            live_outcome(self@.lifecycle, result),
            result matches Ok(size) ==> size@ == seq![self@.width, self@.height],
    {
        FrameController::new().get_frame_size(&self.state)
    }

    /// Makes the window visible.
    pub fn show(&mut self) -> (result: Result<(), OverlayError>)
        requires
            old(self).wf(),
        ensures
            final(self).wf(),
            live_outcome(old(self)@.lifecycle, result),
            result is Ok ==> final(self)@ == old(self)@.with_window(
                WindowModelView { visible: true, ..old(self)@.window.unwrap() },
            ).emit(WindowCommand::SetVisible(true)),
            result is Err ==> final(self)@ == old(self)@,
    {
        WindowController::new().show(&mut self.state)
    }

    /// Hides the window.
    pub fn hide_window(&mut self) -> (result: Result<(), OverlayError>)
        requires
            old(self).wf(),
        ensures
            final(self).wf(),
            live_outcome(old(self)@.lifecycle, result),
            result is Ok ==> final(self)@ == old(self)@.with_window(
                WindowModelView { visible: false, ..old(self)@.window.unwrap() },
            ).emit(WindowCommand::SetVisible(false)),
            result is Err ==> final(self)@ == old(self)@,
    {
        WindowController::new().hide_window(&mut self.state)
    }

    /// Moves the window to `(x, y)`; before creation the position is staged.
    pub fn set_position(&mut self, x: i32, y: i32) -> (result: Result<(), OverlayError>)
        requires
            old(self).wf(),
        ensures
            final(self).wf(),
            staged_outcome(old(self)@.lifecycle, result),
            old(self)@.lifecycle is Ready ==> final(self)@ == old(self)@.with_window(
                WindowModelView {
                    position: Ok(WindowPosition { x, y }),
                    ..old(self)@.window.unwrap()
                },
            ).emit(WindowCommand::SetPosition(WindowPosition { x, y })),
            old(self)@.lifecycle is Uninitialized ==> final(self)@ == old(self)@.with_pending(
                PendingView {
                    config: WindowConfigView {
                        x: Some(x),
                        y: Some(y),
                        ..old(self)@.staged().config
                    },
                    ..old(self)@.staged()
                },
            ),
            result is Err ==> final(self)@ == old(self)@,
    {
        WindowController::new().set_position(&mut self.state, x, y)
    }

    /// The position of the window; see [`WindowController::get_position`].
    pub fn get_position(&self) -> (result: Result<WindowPosition, OverlayError>)
        requires
            self.wf(),
        ensures
            !(self@.lifecycle is Ready) ==> live_outcome(self@.lifecycle, result),
            self@.lifecycle is Ready ==> match self@.window.unwrap().position {
                Ok(position) => result == Ok::<WindowPosition, OverlayError>(position),
                Err(detail) => result matches Err(OverlayError::PlatformFailure(message))
                    && message@ == position_failure_text(detail),
            },
    {
        WindowController::new().get_position(&self.state)
    }

    /// Resizes the window; before creation the size is staged.
    pub fn set_size(&mut self, width: u32, height: u32) -> (result: Result<(), OverlayError>)
        requires
            old(self).wf(),
        ensures
            final(self).wf(),
            staged_outcome(old(self)@.lifecycle, result),
            old(self)@.lifecycle is Ready ==> final(self)@ == old(self)@.with_window(
                WindowModelView {
                    size: WindowSize { width, height },
                    ..old(self)@.window.unwrap()
                },
            ).emit(WindowCommand::SetSize(WindowSize { width, height })),
            old(self)@.lifecycle is Uninitialized ==> final(self)@ == old(self)@.with_pending(
                PendingView {
                    config: WindowConfigView {
                        width: Some(width),
                        height: Some(height),
                        ..old(self)@.staged().config
                    },
                    ..old(self)@.staged()
                },
            ),
            result is Err ==> final(self)@ == old(self)@,
    {
        WindowController::new().set_size(&mut self.state, width, height)
    }

    /// The size of the window.
    pub fn get_size(&self) -> (result: Result<WindowSize, OverlayError>)
        requires
            self.wf(),
        ensures
            live_outcome(self@.lifecycle, result),
            result matches Ok(size) ==> size == self@.window.unwrap().size,
    {
        WindowController::new().get_size(&self.state)
    }

    /// Sets the title of the window; before creation the title is staged.
    pub fn set_title(&mut self, title: String) -> (result: Result<(), OverlayError>)
        requires
            old(self).wf(),
        ensures
            final(self).wf(),
            staged_outcome(old(self)@.lifecycle, result),
            old(self)@.lifecycle is Ready ==> final(self)@ == old(self)@.with_window(
                WindowModelView { title: title@, ..old(self)@.window.unwrap() },
            ).emit(WindowCommand::SetTitle),
            old(self)@.lifecycle is Uninitialized ==> final(self)@ == old(self)@.with_pending(
                PendingView {
                    config: WindowConfigView {
                        title: Some(title@),
                        ..old(self)@.staged().config
                    },
                    ..old(self)@.staged()
                },
            ),
            result is Err ==> final(self)@ == old(self)@,
    {
        WindowController::new().set_title(&mut self.state, title.as_str())
    }

    /// Sets the level of the window; before creation the level is staged.
    pub fn set_window_level(&mut self, level: WindowLevel) -> (result: Result<(), OverlayError>)
        requires
            old(self).wf(),
        ensures
            final(self).wf(),
            staged_outcome(old(self)@.lifecycle, result),
            old(self)@.lifecycle is Ready ==> final(self)@ == old(self)@.with_window(
                WindowModelView { level, ..old(self)@.window.unwrap() },
            ).emit(WindowCommand::SetWindowLevel(level)),
            old(self)@.lifecycle is Uninitialized ==> final(self)@ == old(self)@.with_pending(
                PendingView { window_level: Some(level), ..old(self)@.staged() },
            ),
            result is Err ==> final(self)@ == old(self)@,
    {
        WindowController::new().set_window_level(&mut self.state, level)
    }

    /// Asks the platform to redraw the window.
    pub fn request_redraw(&mut self) -> (result: Result<(), OverlayError>)
        requires
            old(self).wf(),
        ensures
            final(self).wf(),
            live_outcome(old(self)@.lifecycle, result),
            result is Ok ==> final(self)@ == old(self)@.emit(WindowCommand::RequestRedraw),
            result is Err ==> final(self)@ == old(self)@,
    {
        WindowController::new().request_redraw(&mut self.state)
    }

    /// Whether the window is visible.
    pub fn is_visible(&self) -> (result: Result<bool, OverlayError>)
        requires
            self.wf(),
        ensures
            live_outcome(self@.lifecycle, result),
            result matches Ok(visible) ==> visible == self@.window.unwrap().visible,
    {
        WindowController::new().is_visible(&self.state)
    }

    /// Sets every pixel of the frame to `color` and requests a redraw.
    pub fn clear_frame(&mut self, color: Color) -> (result: Result<(), OverlayError>)
        requires
            old(self).wf(),
        ensures
            final(self).wf(),
            live_outcome(old(self)@.lifecycle, result),
            result is Ok ==> final(self)@ == old(self)@.with_frame(
                painted(old(self)@.frame.len(), color, old(self)@.frame),
            ).emit(WindowCommand::RequestRedraw),
            result is Err ==> final(self)@ == old(self)@,
    {
        FrameController::new().clear_frame(&mut self.state, &color)
    }

    /// Paints a rectangle, clamped to the declared width and height of the
    /// frame, and requests a redraw.
    pub fn draw_rectangle(&mut self, x: u32, y: u32, width: u32, height: u32, color: Color) -> (result:
        Result<(), OverlayError>)
        requires
            old(self).wf(),
        ensures
            final(self).wf(),
            live_outcome(old(self)@.lifecycle, result),
            result is Ok ==> final(self)@ == old(self)@.with_frame(
                rectangle_painted(
                    old(self)@.frame,
                    RectangleParams {
                        x,
                        y,
                        width,
                        height,
                        frame_width: old(self)@.width as usize,
                        frame_height: old(self)@.height as usize,
                    },
                    color,
                ),
            ).emit(WindowCommand::RequestRedraw),
            result is Err ==> final(self)@ == old(self)@,
    {
        FrameController::new().draw_rectangle(&mut self.state, x, y, width, height, &color)
    }
}

} // verus!
