//! The shared window state, its two-phase lifecycle, the window and frame
//! controllers, and the event dispatcher.
//!
//! A [`WindowState`] is the single mutable record behind an overlay surface;
//! the embedding program keeps it behind one lock together with the native
//! window. Every operation here runs on the locked state: it checks the
//! lifecycle, updates the state, and queues the [`WindowCommand`]s that the
//! embedding has to carry out on the native window before it releases the lock.

use crate::buffer::{
    blit, blitted, checked_buffer_size, clear_buffer_optimized, draw_circle_optimized,
    draw_line_optimized, draw_pixel_safe, draw_rectangle_optimized, frame_len,
    lemma_plot_all_len, painted,
    pixel_fits, pixel_index, plot_all, rectangle_painted, with_pixel, RectangleParams,
};
use crate::color::Color;
use crate::geometry::{circle_points, line_points};
use crate::text::{decimal_text, push_decimal};
use crate::types::{
    DecodedImage, LineParams, OverlayError, OverlayEvent, WindowConfig, WindowConfigView,
    WindowLevel, WindowPosition, WindowSize,
};
use vstd::prelude::*;
use vstd::slice::slice_to_vec;
use vstd::string::StringExecFns;

verus! {

/// Phase of an overlay surface.
#[derive(Debug, Clone, Copy, PartialEq, Eq, Structural)]
pub enum Lifecycle {
    /// No window and no surface; setters stage their values.
    Uninitialized,
    /// The staged configuration was consumed and the native window is being built.
    Creating,
    /// Window and surface exist.
    Ready,
    /// A close request was seen; the native window is no longer to be touched.
    Closing,
    /// The window is gone.
    Closed,
}

/// Identifies the event callback that the embedding keeps for a surface.
#[derive(Debug, Clone, Copy, PartialEq, Eq, Structural)]
pub struct CallbackHandle {
    pub id: u64,
}

/// What the embedding has to do on the native side, in the order queued.
#[derive(Debug, Clone, Copy, PartialEq, Eq, Structural)]
pub enum WindowCommand {
    SetVisible(bool),
    SetMinimized(bool),
    SetMaximized(bool),
    SetFullscreen(bool),
    SetPosition(WindowPosition),
    SetSize(WindowSize),
    /// Set the native title to the title of the window record.
    SetTitle,
    SetWindowLevel(WindowLevel),
    SetCursorVisible(bool),
    /// Set whether the window takes part in cursor hit testing, then report
    /// the platform's answer with
    /// [`WindowController::finish_ignore_mouse_events`].
    SetCursorHittest(bool),
    RequestRedraw,
    /// Resize the presentation buffer, then report the backend's answer
    /// with [`FrameController::finish_resize`].
    ResizeSurface(WindowSize),
    /// Present the frame.
    Present,
    /// Call the registered callback with the event.
    Notify(OverlayEvent),
    /// Leave the event loop.
    ExitLoop,
}

/// A signal of the platform for one window.
#[derive(Debug, Clone, Copy, PartialEq, Eq, Structural)]
pub enum PlatformEvent {
    CloseRequested,
    Resized(WindowSize),
    Moved(WindowPosition),
    Focused(bool),
    CursorEntered,
    CursorLeft,
    Occluded(bool),
    Destroyed,
    RedrawRequested,
    /// The platform has delivered all pending events of this turn.
    MainEventsCleared,
    /// Any signal that the overlay does not react to.
    Other,
}

/// A platform signal with the window it is for.
#[derive(Debug, Clone, Copy, PartialEq, Eq, Structural)]
pub struct TargetedEvent {
    pub window_id: u64,
    pub event: PlatformEvent,
}

/// What the platform reports of a window it has just built.
#[derive(Debug, PartialEq, Eq)]
pub struct SurfaceInfo {
    pub window_id: u64,
    pub size: WindowSize,
    /// The position of the window, or the platform's detail of why it
    /// cannot tell.
    pub position: Result<WindowPosition, String>,
}

/// Mathematical content of a [`SurfaceInfo`].
#[verifier::ext_equal]
pub struct SurfaceInfoView {
    pub window_id: u64,
    pub size: WindowSize,
    pub position: Result<WindowPosition, Seq<char>>,
}

/// A position, or the text of why there is none.
pub open spec fn position_view(position: Result<WindowPosition, String>) -> Result<
    WindowPosition,
    Seq<char>,
> {
    match position {
        Ok(p) => Ok(p),
        Err(detail) => Err(detail@),
    }
}

/// A copy of a position or of the text in its place.
fn copy_position(position: &Result<WindowPosition, String>) -> (copy: Result<
    WindowPosition,
    String,
>)
    ensures
        position_view(copy) == position_view(*position),
{
    match position {
        Ok(p) => Ok(*p),
        Err(detail) => Err(detail.clone()),
    }
}

impl Clone for SurfaceInfo {
    fn clone(&self) -> (copy: Self)
        ensures
            copy@ == self@,
    {
        SurfaceInfo {
            window_id: self.window_id,
            size: self.size,
            position: copy_position(&self.position),
        }
    }
}

impl View for SurfaceInfo {
    type V = SurfaceInfoView;

    open spec fn view(&self) -> SurfaceInfoView {
        SurfaceInfoView {
            window_id: self.window_id,
            size: self.size,
            position: position_view(self.position),
        }
    }
}

/// Which part of building the surface failed, with the platform's detail.
#[derive(Debug, Clone, PartialEq, Eq)]
pub enum CreationFailure {
    Window(String),
    Surface(String),
}

/// Values staged while no window exists.
#[derive(Debug, Clone, PartialEq, Eq)]
pub struct PendingConfiguration {
    pub config: WindowConfig,
    pub window_level: Option<WindowLevel>,
    pub initial_frame: Option<Vec<u8>>,
}

/// Mathematical content of a [`PendingConfiguration`].
#[verifier::ext_equal]
pub struct PendingView {
    pub config: WindowConfigView,
    pub window_level: Option<WindowLevel>,
    pub initial_frame: Option<Seq<u8>>,
}

impl PendingView {
    /// Nothing staged.
    pub open spec fn empty() -> PendingView {
        PendingView { config: WindowConfigView::empty(), window_level: None, initial_frame: None }
    }
}

impl View for PendingConfiguration {
    type V = PendingView;

    open spec fn view(&self) -> PendingView {
        PendingView {
            config: self.config@,
            window_level: self.window_level,
            initial_frame: match self.initial_frame {
                Some(frame) => Some(frame@),
                None => None,
            },
        }
    }
}

/// Fully resolved parameters of the window and surface to build.
#[derive(Debug, Clone, PartialEq, Eq)]
pub struct CreationPlan {
    pub width: u32,
    pub height: u32,
    pub title: String,
    pub position: Option<WindowPosition>,
    pub level: WindowLevel,
    pub transparent: bool,
    pub decorations: bool,
    pub resizable: bool,
    pub fullscreen: bool,
    pub maximized: bool,
    pub minimized: bool,
    pub render_when_occluded: bool,
    pub initial_frame: Option<Vec<u8>>,
}

/// Mathematical content of a [`CreationPlan`].
#[verifier::ext_equal]
pub struct CreationPlanView {
    pub width: u32,
    pub height: u32,
    pub title: Seq<char>,
    pub position: Option<WindowPosition>,
    pub level: WindowLevel,
    pub transparent: bool,
    pub decorations: bool,
    pub resizable: bool,
    pub fullscreen: bool,
    pub maximized: bool,
    pub minimized: bool,
    pub render_when_occluded: bool,
    pub initial_frame: Option<Seq<u8>>,
}

impl View for CreationPlan {
    type V = CreationPlanView;

    open spec fn view(&self) -> CreationPlanView {
        CreationPlanView {
            width: self.width,
            height: self.height,
            title: self.title@,
            position: self.position,
            level: self.level,
            transparent: self.transparent,
            decorations: self.decorations,
            resizable: self.resizable,
            fullscreen: self.fullscreen,
            maximized: self.maximized,
            minimized: self.minimized,
            render_when_occluded: self.render_when_occluded,
            initial_frame: match self.initial_frame {
                Some(frame) => Some(frame@),
                None => None,
            },
        }
    }
}

/// What the library knows of the native window.
#[derive(Debug, PartialEq, Eq)]
pub struct WindowModel {
    pub id: u64,
    pub title: String,
    /// The position of the window, or the platform's detail of why it is
    /// not known.
    pub position: Result<WindowPosition, String>,
    pub size: WindowSize,
    pub level: WindowLevel,
    pub visible: bool,
    pub minimized: bool,
    pub maximized: bool,
    pub fullscreen: bool,
    pub cursor_visible: bool,
    pub click_through: bool,
    pub transparent: bool,
    pub decorations: bool,
    pub resizable: bool,
}

/// Mathematical content of a [`WindowModel`].
#[verifier::ext_equal]
pub struct WindowModelView {
    pub id: u64,
    pub title: Seq<char>,
    pub position: Result<WindowPosition, Seq<char>>,
    pub size: WindowSize,
    pub level: WindowLevel,
    pub visible: bool,
    pub minimized: bool,
    pub maximized: bool,
    pub fullscreen: bool,
    pub cursor_visible: bool,
    pub click_through: bool,
    pub transparent: bool,
    pub decorations: bool,
    pub resizable: bool,
}

impl View for WindowModel {
    type V = WindowModelView;

    open spec fn view(&self) -> WindowModelView {
        WindowModelView {
            id: self.id,
            title: self.title@,
            position: position_view(self.position),
            size: self.size,
            level: self.level,
            visible: self.visible,
            minimized: self.minimized,
            maximized: self.maximized,
            fullscreen: self.fullscreen,
            cursor_visible: self.cursor_visible,
            click_through: self.click_through,
            transparent: self.transparent,
            decorations: self.decorations,
            resizable: self.resizable,
        }
    }
}

impl Clone for WindowModel {
    fn clone(&self) -> (copy: Self)
        ensures
            copy@ == self@,
    {
        WindowModel {
            id: self.id,
            title: self.title.clone(),
            position: copy_position(&self.position),
            size: self.size,
            level: self.level,
            visible: self.visible,
            minimized: self.minimized,
            maximized: self.maximized,
            fullscreen: self.fullscreen,
            cursor_visible: self.cursor_visible,
            click_through: self.click_through,
            transparent: self.transparent,
            decorations: self.decorations,
            resizable: self.resizable,
        }
    }
}

/// The shared state of one overlay surface.
pub struct WindowState {
    lifecycle: Lifecycle,
    pending: Option<PendingConfiguration>,
    window: Option<WindowModel>,
    frame: Vec<u8>,
    width: u32,
    height: u32,
    occluded: bool,
    render_when_occluded: bool,
    callback: Option<CallbackHandle>,
    commands: Vec<WindowCommand>,
}

/// Mathematical content of a [`WindowState`].
#[verifier::ext_equal]
pub struct WindowStateView {
    pub lifecycle: Lifecycle,
    /// Values staged so far; present only before creation.
    pub pending: Option<PendingView>,
    /// The window record; present while the surface exists.
    pub window: Option<WindowModelView>,
    /// The pixel buffer of the surface, row-major RGBA.
    pub frame: Seq<u8>,
    pub width: u32,
    pub height: u32,
    pub occluded: bool,
    pub render_when_occluded: bool,
    pub callback: Option<CallbackHandle>,
    /// Commands queued for the embedding, oldest first.
    pub commands: Seq<WindowCommand>,
}

impl View for WindowState {
    type V = WindowStateView;

    closed spec fn view(&self) -> WindowStateView {
        WindowStateView {
            lifecycle: self.lifecycle,
            pending: match self.pending {
                Some(p) => Some(p@),
                None => None,
            },
            window: match self.window {
                Some(w) => Some(w@),
                None => None,
            },
            frame: self.frame@,
            width: self.width,
            height: self.height,
            occluded: self.occluded,
            render_when_occluded: self.render_when_occluded,
            callback: self.callback,
            commands: self.commands@,
        }
    }
}

/// Title of a window whose configuration names none.
pub open spec fn default_title() -> Seq<char> {
    "Overlay"@
}

/// Detail of the failure of an operation on a closed window.
pub open spec fn closed_text() -> Seq<char> {
    "Window closed"@
}

/// Message of a failure to build the native window.
pub open spec fn window_failure_text(detail: Seq<char>) -> Seq<char> {
    "Failed to create window: "@ + detail
}

/// Message of a failure to build the presentation surface.
pub open spec fn surface_failure_text(detail: Seq<char>) -> Seq<char> {
    "Failed to create pixels: "@ + detail
}

/// Detail of a frame whose byte length does not fit in `usize`.
pub open spec fn frame_too_large_text() -> Seq<char> {
    "frame size exceeds addressable memory"@
}

/// Detail of a second creation on one surface.
pub open spec fn already_created_text() -> Seq<char> {
    "surface already exists"@
}

/// Message of a resize that the surface did not follow.
pub open spec fn resize_failure_text(detail: Seq<char>) -> Seq<char> {
    "Failed to resize: "@ + detail
}

/// Message of a hit-test setting that the platform refused.
pub open spec fn hittest_failure_text(detail: Seq<char>) -> Seq<char> {
    "Failed to set hittest: "@ + detail
}

/// Message of a position query on a window whose position the platform
/// could not tell.
pub open spec fn position_failure_text(detail: Seq<char>) -> Seq<char> {
    "Failed to get position: "@ + detail
}

/// Message of a frame update with `actual` bytes for a frame of `expected` bytes.
pub open spec fn size_mismatch_text(expected: nat, actual: nat) -> Seq<char> {
    "Buffer size mismatch: expected "@ + decimal_text(expected) + " bytes, got "@ + decimal_text(
        actual,
    ) + " bytes"@
}

/// `a`, or else `b`.
pub open spec fn or_else<T>(a: Option<T>, b: Option<T>) -> Option<T> {
    if a is Some {
        a
    } else {
        b
    }
}

/// The value of `a`, or else `default`.
pub open spec fn or_default<T>(a: Option<T>, default: T) -> T {
    match a {
        Some(v) => v,
        None => default,
    }
}

/// `config` with every staged field of `staged` in place of its own.
pub open spec fn merged(staged: WindowConfigView, config: WindowConfigView) -> WindowConfigView {
    WindowConfigView {
        width: or_else(staged.width, config.width),
        height: or_else(staged.height, config.height),
        x: or_else(staged.x, config.x),
        y: or_else(staged.y, config.y),
        title: or_else(staged.title, config.title),
        transparent: or_else(staged.transparent, config.transparent),
        decorations: or_else(staged.decorations, config.decorations),
        always_on_top: or_else(staged.always_on_top, config.always_on_top),
        resizable: or_else(staged.resizable, config.resizable),
        fullscreen: or_else(staged.fullscreen, config.fullscreen),
        maximized: or_else(staged.maximized, config.maximized),
        minimized: or_else(staged.minimized, config.minimized),
        render_when_occluded: or_else(staged.render_when_occluded, config.render_when_occluded),
    }
}

/// The plan that `config` resolves to: an absent field takes its default,
/// a position needs both coordinates, and a staged window `level` takes the
/// place of the level that `always_on_top` gives.
pub open spec fn resolved(
    config: WindowConfigView,
    level: Option<WindowLevel>,
    initial_frame: Option<Seq<u8>>,
) -> CreationPlanView {
    CreationPlanView {
        width: or_default(config.width, 800),
        height: or_default(config.height, 600),
        title: or_default(config.title, default_title()),
        position: if config.x is Some && config.y is Some {
            Some(WindowPosition { x: config.x.unwrap(), y: config.y.unwrap() })
        } else {
            None
        },
        level: match level {
            Some(l) => l,
            None => if or_default(config.always_on_top, true) {
                WindowLevel::AlwaysOnTop
            } else {
                WindowLevel::Normal
            },
        },
        transparent: or_default(config.transparent, true),
        decorations: or_default(config.decorations, false),
        resizable: or_default(config.resizable, true),
        fullscreen: or_default(config.fullscreen, false),
        maximized: or_default(config.maximized, false),
        minimized: or_default(config.minimized, false),
        render_when_occluded: or_default(config.render_when_occluded, true),
        initial_frame,
    }
}

/// A buffer of `len` bytes that starts with the bytes of `frame` and is zero
/// after them.
pub open spec fn resized(frame: Seq<u8>, len: nat) -> Seq<u8> {
    Seq::new(
        len,
        |i: int|
            if i < frame.len() {
                frame[i]
            } else {
                0u8
            },
    )
}

/// The frame of a new surface of `len` bytes: the staged payload when its
/// length is `len`, else zeros.
pub open spec fn first_frame(initial_frame: Option<Seq<u8>>, len: nat) -> Seq<u8> {
    match initial_frame {
        Some(payload) => if payload.len() == len {
            payload
        } else {
            resized(Seq::empty(), len)
        },
        None => resized(Seq::empty(), len),
    }
}

/// The position of a new window: the one that the platform reports, else
/// the planned one, else the platform's detail of why it cannot tell.
pub open spec fn first_position(
    planned: Option<WindowPosition>,
    reported: Result<WindowPosition, Seq<char>>,
) -> Result<WindowPosition, Seq<char>> {
    match reported {
        Ok(p) => Ok(p),
        Err(detail) => match planned {
            Some(p) => Ok(p),
            None => Err(detail),
        },
    }
}

/// The window record of a surface built from `plan`, as the platform
/// reported it in `info`.
pub open spec fn first_window(plan: CreationPlanView, info: SurfaceInfoView) -> WindowModelView {
    WindowModelView {
        id: info.window_id,
        title: plan.title,
        position: first_position(plan.position, info.position),
        size: info.size,
        level: plan.level,
        visible: true,
        minimized: plan.minimized,
        maximized: plan.maximized,
        fullscreen: plan.fullscreen,
        cursor_visible: true,
        click_through: false,
        transparent: plan.transparent,
        decorations: plan.decorations,
        resizable: plan.resizable,
    }
}

/// The event that the callback is told of for a platform signal, if any.
pub open spec fn event_for(event: PlatformEvent) -> Option<OverlayEvent> {
    match event {
        PlatformEvent::CloseRequested => Some(OverlayEvent::CloseRequested),
        PlatformEvent::Resized(_) => Some(OverlayEvent::Resized),
        PlatformEvent::Moved(_) => Some(OverlayEvent::Moved),
        PlatformEvent::Focused(focused) => Some(
            if focused {
                OverlayEvent::Focused
            } else {
                OverlayEvent::Blurred
            },
        ),
        PlatformEvent::CursorEntered => Some(OverlayEvent::MouseEnter),
        PlatformEvent::CursorLeft => Some(OverlayEvent::MouseLeave),
        PlatformEvent::Occluded(occluded) => Some(
            if occluded {
                OverlayEvent::Minimized
            } else {
                OverlayEvent::Restored
            },
        ),
        PlatformEvent::Destroyed => Some(OverlayEvent::Destroyed),
        PlatformEvent::RedrawRequested => None,
        PlatformEvent::MainEventsCleared => None,
        PlatformEvent::Other => None,
    }
}

impl WindowStateView {
    /// The state of a surface on which nothing has happened yet.
    pub open spec fn initial() -> WindowStateView {
        WindowStateView {
            lifecycle: Lifecycle::Uninitialized,
            pending: None,
            window: None,
            frame: Seq::empty(),
            width: 0,
            height: 0,
            occluded: false,
            render_when_occluded: true,
            callback: None,
            commands: Seq::empty(),
        }
    }

    /// The invariant of the state: window and surface exist together, exactly
    /// in the phases `Ready` and `Closing`; the frame has four bytes for each
    /// pixel of `width` by `height`; values are staged only before creation.
    pub open spec fn wf(self) -> bool {
        &&& (self.lifecycle is Ready || self.lifecycle is Closing) <==> self.window is Some
        &&& self.window is Some ==> self.frame.len() == frame_len(
            self.width as int,
            self.height as int,
        )
        &&& self.window is None ==> self.frame.len() == 0
        &&& self.pending is Some ==> self.lifecycle is Uninitialized
    }

    /// The staged values, empty when nothing was staged.
    pub open spec fn staged(self) -> PendingView {
        match self.pending {
            Some(p) => p,
            None => PendingView::empty(),
        }
    }

    /// The state with `command` queued.
    pub open spec fn emit(self, command: WindowCommand) -> WindowStateView {
        WindowStateView { commands: self.commands.push(command), ..self }
    }

    /// The state with the window record replaced.
    pub open spec fn with_window(self, window: WindowModelView) -> WindowStateView {
        WindowStateView { window: Some(window), ..self }
    }

    /// The state with the frame replaced.
    pub open spec fn with_frame(self, frame: Seq<u8>) -> WindowStateView {
        WindowStateView { frame, ..self }
    }

    /// The state with the staged values replaced.
    pub open spec fn with_pending(self, pending: PendingView) -> WindowStateView {
        WindowStateView { pending: Some(pending), ..self }
    }

    /// The state with `event` queued for the callback, when one is registered.
    pub open spec fn notify(self, event: OverlayEvent) -> WindowStateView {
        if self.callback is Some {
            self.emit(WindowCommand::Notify(event))
        } else {
            self
        }
    }

    /// The state with the callback told of `event`, when it maps to one.
    pub open spec fn notify_of(self, event: PlatformEvent) -> WindowStateView {
        match event_for(event) {
            Some(e) => self.notify(e),
            None => self,
        }
    }

    /// Whether a redraw request leads to a presentation.
    pub open spec fn presents(self) -> bool {
        !self.occluded || self.render_when_occluded
    }

    /// The state after creation began with `config`.
    pub open spec fn creating(self, config: WindowConfigView) -> WindowStateView {
        let plan = self.plan(config);
        WindowStateView {
            lifecycle: Lifecycle::Creating,
            pending: None,
            width: plan.width,
            height: plan.height,
            render_when_occluded: plan.render_when_occluded,
            ..self
        }
    }

    /// The plan that the staged values and `config` resolve to.
    pub open spec fn plan(self, config: WindowConfigView) -> CreationPlanView {
        resolved(
            merged(self.staged().config, config),
            self.staged().window_level,
            self.staged().initial_frame,
        )
    }

    /// The state after the surface of `plan` was built as `info` reports.
    pub open spec fn created(self, plan: CreationPlanView, info: SurfaceInfoView) -> WindowStateView {
        let ready = WindowStateView {
            lifecycle: Lifecycle::Ready,
            window: Some(first_window(plan, info)),
            frame: first_frame(
                plan.initial_frame,
                frame_len(info.size.width as int, info.size.height as int) as nat,
            ),
            width: info.size.width,
            height: info.size.height,
            occluded: false,
            render_when_occluded: plan.render_when_occluded,
            ..self
        };
        if plan.minimized {
            ready.emit(WindowCommand::SetMinimized(true))
        } else {
            ready
        }
    }

    /// The state after creation failed: nothing is populated.
    pub open spec fn creation_failed(self) -> WindowStateView {
        WindowStateView { lifecycle: Lifecycle::Uninitialized, ..self }
    }

    /// The state after the surface was asked to follow a resize to `size`.
    /// Nothing is asked for a frame that would not fit in memory, and the
    /// frame changes only when the surface has answered; see
    /// [`WindowStateView::surface_resized`].
    pub open spec fn resize_asked(self, size: WindowSize) -> WindowStateView {
        if frame_len(size.width as int, size.height as int) <= usize::MAX {
            self.emit(WindowCommand::ResizeSurface(size))
        } else {
            self
        }
    }

    /// The state after the surface followed a resize to `size`: the frame
    /// keeps its leading bytes and is zero after them, the declared width
    /// and height are those of `size`, and a redraw is requested.
    pub open spec fn surface_resized(self, size: WindowSize) -> WindowStateView {
        WindowStateView {
            frame: resized(self.frame, frame_len(size.width as int, size.height as int) as nat),
            width: size.width,
            height: size.height,
            ..self
        }.emit(WindowCommand::RequestRedraw)
    }

    /// The state after the platform signal `event` on a live window.
    pub open spec fn after_live_event(self, event: PlatformEvent) -> WindowStateView {
        let window = self.window.unwrap();
        match event {
            PlatformEvent::CloseRequested => WindowStateView {
                lifecycle: Lifecycle::Closing,
                ..self
            }.notify_of(event).emit(WindowCommand::ExitLoop),
            PlatformEvent::Resized(size) => self.with_window(
                WindowModelView { size, ..window },
            ).resize_asked(size).notify_of(event),
            PlatformEvent::Moved(position) => self.with_window(
                WindowModelView { position: Ok(position), ..window },
            ).notify_of(event),
            PlatformEvent::Occluded(occluded) => WindowStateView {
                occluded,
                ..self
            }.notify_of(event),
            PlatformEvent::Destroyed => self.torn_down().notify_of(event),
            PlatformEvent::RedrawRequested => if self.presents() {
                self.emit(WindowCommand::Present)
            } else {
                self
            },
            _ => self.notify_of(event),
        }
    }

    /// The state without window and surface.
    pub open spec fn torn_down(self) -> WindowStateView {
        WindowStateView {
            lifecycle: Lifecycle::Closed,
            window: None,
            frame: Seq::empty(),
            ..self
        }
    }

    /// The state after the platform signal `event` on a closing window: the
    /// callback is still told, a repeated close request asks again to leave
    /// the loop, and only the destruction changes the state.
    pub open spec fn after_closing_event(self, event: PlatformEvent) -> WindowStateView {
        match event {
            PlatformEvent::CloseRequested => self.notify_of(event).emit(WindowCommand::ExitLoop),
            PlatformEvent::Destroyed => self.torn_down().notify_of(event),
            _ => self.notify_of(event),
        }
    }

    /// The state after the platform signal `event`. Without a window nothing
    /// happens.
    pub open spec fn after_event(self, event: PlatformEvent) -> WindowStateView {
        match self.lifecycle {
            Lifecycle::Ready => self.after_live_event(event),
            Lifecycle::Closing => self.after_closing_event(event),
            _ => self,
        }
    }

    /// Whether the signal `event` asks the event loop to end.
    pub open spec fn exits_on(self, event: PlatformEvent) -> bool {
        (self.lifecycle is Ready || self.lifecycle is Closing) && event is CloseRequested
    }
}

/// Whether `result` is what an operation that needs a live surface owes in
/// `lifecycle`: success when `Ready`; the not-initialized refusal before the
/// surface exists; a platform failure once it is closing or closed.
pub open spec fn live_outcome<T>(lifecycle: Lifecycle, result: Result<T, OverlayError>) -> bool {
    match lifecycle {
        Lifecycle::Ready => result is Ok,
        Lifecycle::Uninitialized | Lifecycle::Creating => result matches Err(
            OverlayError::NotInitialized,
        ),
        Lifecycle::Closing | Lifecycle::Closed => result matches Err(
            OverlayError::PlatformFailure(message),
        ) && message@ == closed_text(),
    }
}

/// Feeding the frame back as an update changes nothing but the queue, which
/// gains the redraw request of the update.
pub proof fn lemma_frame_round_trip(state: WindowStateView)
    ensures
        state.with_frame(state.frame) == state,
        state.with_frame(state.frame).emit(WindowCommand::RequestRedraw) == state.emit(
            WindowCommand::RequestRedraw,
        ),
{
    assert(state.with_frame(state.frame) =~= state);
}

/// A position staged before creation is the position that the window is
/// planned and created at, whatever the configuration says, unless the
/// platform reports another.
pub proof fn lemma_staged_position_is_planned(
    state: WindowStateView,
    x: i32,
    y: i32,
    config: WindowConfigView,
    info: SurfaceInfoView,
)
    ensures
        ({
            let staged = state.with_pending(
                PendingView {
                    config: WindowConfigView { x: Some(x), y: Some(y), ..state.staged().config },
                    ..state.staged()
                },
            );
            &&& staged.plan(config).position == Some(WindowPosition { x, y })
            &&& info.position is Err ==> staged.creating(config).created(
                staged.plan(config),
                info,
            ).window.unwrap().position == Ok::<WindowPosition, Seq<char>>(
                WindowPosition { x, y },
            )
        }),
{
}

/// A size staged before creation is the size that the window is planned at,
/// whatever the configuration says.
pub proof fn lemma_staged_size_is_planned(
    state: WindowStateView,
    width: u32,
    height: u32,
    config: WindowConfigView,
)
    ensures
        ({
            let staged = state.with_pending(
                PendingView {
                    config: WindowConfigView {
                        width: Some(width),
                        height: Some(height),
                        ..state.staged().config
                    },
                    ..state.staged()
                },
            );
            &&& staged.plan(config).width == width
            &&& staged.plan(config).height == height
        }),
{
}

/// Without staged values and with an empty configuration the plan is the
/// documented default window.
pub proof fn lemma_default_plan()
    ensures
        WindowStateView::initial().plan(WindowConfigView::empty()) == (CreationPlanView {
            width: 800,
            height: 600,
            title: default_title(),
            position: None,
            level: WindowLevel::AlwaysOnTop,
            transparent: true,
            decorations: false,
            resizable: true,
            fullscreen: false,
            maximized: false,
            minimized: false,
            render_when_occluded: true,
            initial_frame: None,
        }),
{
}

/// A surface created without staged values and with an empty configuration
/// is asked for at 800 by 600, and its window reports that size when the
/// platform built the window as asked.
pub proof fn lemma_default_surface_size(info: SurfaceInfoView)
    requires
        info.size == (WindowSize { width: 800, height: 600 }),
    ensures
        ({
            let plan = WindowStateView::initial().plan(WindowConfigView::empty());
            let ready = WindowStateView::initial().creating(WindowConfigView::empty()).created(
                plan,
                info,
            );
            &&& plan.width == 800 && plan.height == 600
            &&& ready.lifecycle is Ready
            &&& ready.window.unwrap().size == (WindowSize { width: 800, height: 600 })
            &&& ready.width == 800 && ready.height == 600
            &&& ready.frame.len() == 800 * 600 * 4
        }),
{
}

/// Every dispatched signal keeps the invariant of the state.
pub proof fn lemma_event_keeps_invariant(state: WindowStateView, event: PlatformEvent)
    requires
        state.wf(),
    ensures
        state.after_event(event).wf(),
{
}

/// `first` followed by `second`.
fn joined(first: &str, second: &str) -> (text: String)
    ensures
        text@ == first@ + second@,
{
    let mut text = String::from_str(first);
    text.append(second);
    text
}

/// The failure of a platform call: `context`, a colon and the platform's
/// `detail`.
pub fn platform_failure(context: &str, detail: &str) -> (error: OverlayError)
    ensures
        error matches OverlayError::PlatformFailure(message) && message@ == context@ + ": "@
            + detail@,
{
    let mut message = String::from_str(context);
    message.append(": ");
    message.append(detail);
    OverlayError::PlatformFailure(message)
}

/// `a`, or else `b`.
fn pick<T: Copy>(a: Option<T>, b: Option<T>) -> (chosen: Option<T>)
    ensures
        chosen == or_else(a, b),
{
    match a {
        Some(_) => a,
        None => b,
    }
}

/// The value of `a`, or else `default`.
fn value_or<T: Copy>(a: Option<T>, default: T) -> (value: T)
    ensures
        value == or_default(a, default),
{
    match a {
        Some(v) => v,
        None => default,
    }
}

/// The plan that `config` alone resolves to: every absent field takes its
/// default (800 by 600, titled "Overlay", transparent, undecorated, always on
/// top, resizable, presented while occluded).
pub fn create_overlay_window(config: &WindowConfig) -> (plan: CreationPlan)
    ensures
        plan@ == resolved(config@, None, None),
{
    let title = match &config.title {
        Some(t) => t.clone(),
        None => String::from_str("Overlay"),
    };
    let position = match (config.x, config.y) {
        (Some(x), Some(y)) => Some(WindowPosition { x, y }),
        _ => None,
    };
    let level = if value_or(config.always_on_top, true) {
        WindowLevel::AlwaysOnTop
    } else {
        WindowLevel::Normal
    };
    CreationPlan {
        width: value_or(config.width, 800),
        height: value_or(config.height, 600),
        title,
        position,
        level,
        transparent: value_or(config.transparent, true),
        decorations: value_or(config.decorations, false),
        resizable: value_or(config.resizable, true),
        fullscreen: value_or(config.fullscreen, false),
        maximized: value_or(config.maximized, false),
        minimized: value_or(config.minimized, false),
        render_when_occluded: value_or(config.render_when_occluded, true),
        initial_frame: None,
    }
}

/// `config` with every staged field of `staged` in place of its own.
fn merge_configs(staged: WindowConfig, config: WindowConfig) -> (both: WindowConfig)
    ensures
        both@ == merged(staged@, config@),
{
    let title = match staged.title {
        Some(t) => Some(t),
        None => config.title,
    };
    WindowConfig {
        width: pick(staged.width, config.width),
        height: pick(staged.height, config.height),
        x: pick(staged.x, config.x),
        y: pick(staged.y, config.y),
        title,
        transparent: pick(staged.transparent, config.transparent),
        decorations: pick(staged.decorations, config.decorations),
        always_on_top: pick(staged.always_on_top, config.always_on_top),
        resizable: pick(staged.resizable, config.resizable),
        fullscreen: pick(staged.fullscreen, config.fullscreen),
        maximized: pick(staged.maximized, config.maximized),
        minimized: pick(staged.minimized, config.minimized),
        render_when_occluded: pick(staged.render_when_occluded, config.render_when_occluded),
    }
}

/// The plan that the values of `staged`, merged over `config`, resolve to.
fn plan_from(staged: PendingConfiguration, config: WindowConfig) -> (plan: CreationPlan)
    ensures
        plan@ == resolved(
            merged(staged@.config, config@),
            staged@.window_level,
            staged@.initial_frame,
        ),
{
    let both = merge_configs(staged.config, config);
    let mut plan = create_overlay_window(&both);
    match staged.window_level {
        Some(l) => {
            plan.level = l;
        },
        None => {},
    }
    plan.initial_frame = staged.initial_frame;
    assert(plan@ =~= resolved(
        merged(staged@.config, config@),
        staged@.window_level,
        staged@.initial_frame,
    ));
    plan
}

impl WindowState {
    /// The invariant of the state; see [`WindowStateView::wf`].
    pub open spec fn wf(&self) -> bool {
        self@.wf()
    }

    /// A state without window, surface or staged values.
    pub fn new() -> (state: WindowState)
        ensures
            state@ == WindowStateView::initial(),
            state.wf(),
    {
        WindowState {
            lifecycle: Lifecycle::Uninitialized,
            pending: None,
            window: None,
            frame: Vec::new(),
            width: 0,
            height: 0,
            occluded: false,
            render_when_occluded: true,
            callback: None,
            commands: Vec::new(),
        }
    }

    /// The refusal owed to an operation that needs a live surface.
    fn refusal<T>(&self) -> (result: Result<T, OverlayError>)
        requires
            !(self@.lifecycle is Ready),
        ensures
            live_outcome(self@.lifecycle, result),
    {
        match self.lifecycle {
            Lifecycle::Closing | Lifecycle::Closed => Err(
                OverlayError::PlatformFailure(String::from_str("Window closed")),
            ),
            _ => Err(OverlayError::NotInitialized),
        }
    }

    /// Queues `command`.
    fn push(&mut self, command: WindowCommand)
        ensures
            final(self)@ == old(self)@.emit(command),
    {
        self.commands.push(command);
    }

    /// Queues `event` for the callback, when one is registered.
    fn tell(&mut self, event: OverlayEvent)
        ensures
            final(self)@ == old(self)@.notify(event),
    {
        if self.callback.is_some() {
            self.commands.push(WindowCommand::Notify(event));
        }
    }

    /// Queues the event that `event` maps to, when it maps to one.
    fn tell_of(&mut self, event: PlatformEvent)
        ensures
            final(self)@ == old(self)@.notify_of(event),
    {
        match event {
            PlatformEvent::CloseRequested => self.tell(OverlayEvent::CloseRequested),
            PlatformEvent::Resized(_) => self.tell(OverlayEvent::Resized),
            PlatformEvent::Moved(_) => self.tell(OverlayEvent::Moved),
            PlatformEvent::Focused(focused) => if focused {
                self.tell(OverlayEvent::Focused)
            } else {
                self.tell(OverlayEvent::Blurred)
            },
            PlatformEvent::CursorEntered => self.tell(OverlayEvent::MouseEnter),
            PlatformEvent::CursorLeft => self.tell(OverlayEvent::MouseLeave),
            PlatformEvent::Occluded(occluded) => if occluded {
                self.tell(OverlayEvent::Minimized)
            } else {
                self.tell(OverlayEvent::Restored)
            },
            PlatformEvent::Destroyed => self.tell(OverlayEvent::Destroyed),
            PlatformEvent::RedrawRequested => {},
            PlatformEvent::MainEventsCleared => {},
            PlatformEvent::Other => {},
        }
    }

    /// Takes the staged values out of the state.
    fn take_staged(&mut self) -> (staged: PendingConfiguration)
        ensures
            staged@ == old(self)@.staged(),
            final(self)@ == (WindowStateView { pending: None, ..old(self)@ }),
    {
        let staged = match self.pending.take() {
            Some(p) => p,
            None => PendingConfiguration {
                config: WindowConfig::default(),
                window_level: None,
                initial_frame: None,
            },
        };
        assert(staged@ =~= old(self)@.staged());
        assert(self@ =~= (WindowStateView { pending: None, ..old(self)@ }));
        staged
    }

    /// Begins creation: the staged values, merged over `config`, are consumed
    /// and resolved into the plan of the window to build, and the state
    /// enters `Creating`. A surface that was created before refuses.
    pub fn begin_creation(&mut self, config: WindowConfig) -> (result: Result<
        CreationPlan,
        OverlayError,
    >)
        requires
            old(self).wf(),
        ensures
            final(self).wf(),
            old(self)@.lifecycle is Uninitialized ==> {
                &&& result matches Ok(plan)
                &&& plan@ == old(self)@.plan(config@)
                &&& final(self)@ == old(self)@.creating(config@)
            },
            !(old(self)@.lifecycle is Uninitialized) ==> {
                &&& result matches Err(OverlayError::PlatformFailure(message))
                &&& message@ == window_failure_text(already_created_text())
                &&& final(self)@ == old(self)@
            },
    {
        match self.lifecycle {
            Lifecycle::Uninitialized => {},
            _ => {
                return Err(
                    OverlayError::PlatformFailure(
                        joined("Failed to create window: ", "surface already exists"),
                    ),
                );
            },
        }
        let staged = self.take_staged();
        let plan = plan_from(staged, config);
        self.lifecycle = Lifecycle::Creating;
        self.width = plan.width;
        self.height = plan.height;
        self.render_when_occluded = plan.render_when_occluded;
        assert(self@ =~= old(self)@.creating(config@));
        Ok(plan)
    }

    /// Ends creation. When the platform built the surface, window and surface
    /// are populated together from `plan` and the report `info`, the staged
    /// frame becomes the first frame if its length is that of the surface,
    /// and the state is `Ready`. When the platform failed, or the frame
    /// would not fit in memory, nothing is populated, the state is
    /// `Uninitialized` again and the failure is handed on with its detail.
    /// Outside `Creating` the call is refused as not initialized.
    pub fn finish_creation(
        &mut self,
        plan: CreationPlan,
        created: Result<SurfaceInfo, CreationFailure>,
    ) -> (result: Result<(), OverlayError>)
        requires
            old(self).wf(),
        ensures
            final(self).wf(),
            !(old(self)@.lifecycle is Creating) ==> {
                &&& result matches Err(OverlayError::NotInitialized)
                &&& final(self)@ == old(self)@
            },
            old(self)@.lifecycle is Creating ==> match created {
                Ok(info) => if frame_len(info.size.width as int, info.size.height as int)
                    <= usize::MAX {
                    &&& result is Ok
                    &&& final(self)@ == old(self)@.created(plan@, info@)
                } else {
                    &&& result matches Err(OverlayError::PlatformFailure(message))
                    &&& message@ == surface_failure_text(frame_too_large_text())
                    &&& final(self)@ == old(self)@.creation_failed()
                },
                Err(CreationFailure::Window(detail)) => {
                    &&& result matches Err(OverlayError::PlatformFailure(message))
                    &&& message@ == window_failure_text(detail@)
                    &&& final(self)@ == old(self)@.creation_failed()
                },
                Err(CreationFailure::Surface(detail)) => {
                    &&& result matches Err(OverlayError::PlatformFailure(message))
                    &&& message@ == surface_failure_text(detail@)
                    &&& final(self)@ == old(self)@.creation_failed()
                },
            },
    {
        match self.lifecycle {
            Lifecycle::Creating => {},
            _ => {
                return Err(OverlayError::NotInitialized);
            },
        }
        let info = match created {
            Ok(info) => info,
            Err(CreationFailure::Window(detail)) => {
                self.lifecycle = Lifecycle::Uninitialized;
                assert(self@ =~= old(self)@.creation_failed());
                return Err(
                    OverlayError::PlatformFailure(
                        joined("Failed to create window: ", detail.as_str()),
                    ),
                );
            },
            Err(CreationFailure::Surface(detail)) => {
                self.lifecycle = Lifecycle::Uninitialized;
                assert(self@ =~= old(self)@.creation_failed());
                return Err(
                    OverlayError::PlatformFailure(
                        joined("Failed to create pixels: ", detail.as_str()),
                    ),
                );
            },
        };
        let len = match checked_buffer_size(info.size.width, info.size.height) {
            Some(len) => len,
            None => {
                self.lifecycle = Lifecycle::Uninitialized;
                assert(self@ =~= old(self)@.creation_failed());
                return Err(
                    OverlayError::PlatformFailure(
                        joined(
                            "Failed to create pixels: ",
                            "frame size exceeds addressable memory",
                        ),
                    ),
                );
            },
        };
        let ghost plan_view = plan@;
        let zeros = vec![0u8; len];
        assert(zeros@ =~= resized(Seq::empty(), len as nat));
        let frame = match plan.initial_frame {
            Some(payload) => if payload.len() == len {
                payload
            } else {
                zeros
            },
            None => zeros,
        };
        assert(frame@ == first_frame(plan_view.initial_frame, len as nat));
        let ghost info_view = info@;
        let position = match info.position {
            Ok(p) => Ok(p),
            Err(detail) => match plan.position {
                Some(p) => Ok(p),
                None => Err(detail),
            },
        };
        let window = WindowModel {
            id: info.window_id,
            title: plan.title,
            position,
            size: info.size,
            level: plan.level,
            visible: true,
            minimized: plan.minimized,
            maximized: plan.maximized,
            fullscreen: plan.fullscreen,
            cursor_visible: true,
            click_through: false,
            transparent: plan.transparent,
            decorations: plan.decorations,
            resizable: plan.resizable,
        };
        assert(window@ =~= first_window(plan_view, info_view));
        self.lifecycle = Lifecycle::Ready;
        self.window = Some(window);
        self.frame = frame;
        self.width = info.size.width;
        self.height = info.size.height;
        self.occluded = false;
        self.render_when_occluded = plan.render_when_occluded;
        if plan.minimized {
            self.commands.push(WindowCommand::SetMinimized(true));
        }
        assert(self@ =~= old(self)@.created(plan_view, info_view));
        Ok(())
    }

    /// Asks the surface to follow a resize to `size`, when the new frame
    /// fits in memory.
    fn ask_resize(&mut self, size: WindowSize)
        ensures
            final(self)@ == old(self)@.resize_asked(size),
    {
        if checked_buffer_size(size.width, size.height).is_some() {
            self.push(WindowCommand::ResizeSurface(size));
        }
    }

    /// Follows a resize to `size`, whose frame has `len` bytes.
    fn follow_resize(&mut self, size: WindowSize, len: usize)
        requires
            len == frame_len(size.width as int, size.height as int),
        ensures
            final(self)@ == old(self)@.surface_resized(size),
    {
        self.frame.resize(len, 0u8);
        self.width = size.width;
        self.height = size.height;
        self.commands.push(WindowCommand::RequestRedraw);
        assert(self.frame@ =~= resized(old(self)@.frame, len as nat));
        assert(self@ =~= old(self)@.surface_resized(size));
    }

    /// Removes window and surface.
    fn tear_down(&mut self)
        ensures
            final(self)@ == old(self)@.torn_down(),
    {
        self.lifecycle = Lifecycle::Closed;
        self.window = None;
        self.frame = Vec::new();
        assert(self@ =~= old(self)@.torn_down());
    }

    /// Records the new size of the window.
    fn note_size(&mut self, size: WindowSize)
        requires
            old(self)@.window is Some,
        ensures
            final(self)@ == old(self)@.with_window(
                WindowModelView { size, ..old(self)@.window.unwrap() },
            ),
    {
        match &mut self.window {
            Some(window) => {
                window.size = size;
            },
            None => {},
        }
        assert(self@ =~= old(self)@.with_window(
            WindowModelView { size, ..old(self)@.window.unwrap() },
        ));
    }

    /// Records the new position of the window.
    fn note_position(&mut self, position: WindowPosition)
        requires
            old(self)@.window is Some,
        ensures
            final(self)@ == old(self)@.with_window(
                WindowModelView { position: Ok(position), ..old(self)@.window.unwrap() },
            ),
    {
        match &mut self.window {
            Some(window) => {
                window.position = Ok(position);
            },
            None => {},
        }
        assert(self@ =~= old(self)@.with_window(
            WindowModelView { position: Ok(position), ..old(self)@.window.unwrap() },
        ));
    }

    /// Enters `Closing`.
    fn begin_closing(&mut self)
        ensures
            final(self)@ == (WindowStateView { lifecycle: Lifecycle::Closing, ..old(self)@ }),
    {
        self.lifecycle = Lifecycle::Closing;
        assert(self@ =~= (WindowStateView { lifecycle: Lifecycle::Closing, ..old(self)@ }));
    }

    /// Records whether the window is occluded.
    fn note_occluded(&mut self, occluded: bool)
        ensures
            final(self)@ == (WindowStateView { occluded, ..old(self)@ }),
    {
        self.occluded = occluded;
        assert(self@ =~= (WindowStateView { occluded, ..old(self)@ }));
    }

    /// Applies `event` to a live window.
    fn handle_live_event(&mut self, event: PlatformEvent) -> (exit: bool)
        requires
            old(self)@.window is Some,
        ensures
            final(self)@ == old(self)@.after_live_event(event),
            exit == (event is CloseRequested),
    {
        match event {
            PlatformEvent::CloseRequested => {
                self.begin_closing();
                self.tell_of(event);
                self.push(WindowCommand::ExitLoop);
                true
            },
            PlatformEvent::Resized(size) => {
                self.note_size(size);
                self.ask_resize(size);
                self.tell_of(event);
                false
            },
            PlatformEvent::Moved(position) => {
                self.note_position(position);
                self.tell_of(event);
                false
            },
            PlatformEvent::Occluded(occluded) => {
                self.note_occluded(occluded);
                self.tell_of(event);
                false
            },
            PlatformEvent::Destroyed => {
                self.tear_down();
                self.tell_of(event);
                false
            },
            PlatformEvent::RedrawRequested => {
                if !self.occluded || self.render_when_occluded {
                    self.push(WindowCommand::Present);
                }
                false
            },
            _ => {
                self.tell_of(event);
                false
            },
        }
    }

    /// Applies `event` to a closing window.
    fn handle_closing_event(&mut self, event: PlatformEvent) -> (exit: bool)
        ensures
            final(self)@ == old(self)@.after_closing_event(event),
            exit == (event is CloseRequested),
    {
        match event {
            PlatformEvent::CloseRequested => {
                self.tell_of(event);
                self.push(WindowCommand::ExitLoop);
                true
            },
            PlatformEvent::Destroyed => {
                self.tear_down();
                self.tell_of(event);
                false
            },
            _ => {
                self.tell_of(event);
                false
            },
        }
    }

    /// Applies the platform signal `event` to the state and queues what
    /// follows from it: the state is updated first, then the callback is
    /// told of the event that the signal maps to, and a close request asks
    /// last to leave the event loop. Returns whether the loop is to end.
    pub fn handle_event(&mut self, event: PlatformEvent) -> (exit: bool)
        requires
            old(self).wf(),
        ensures
            final(self).wf(),
            final(self)@ == old(self)@.after_event(event),
            exit == old(self)@.exits_on(event),
    {
        proof {
            lemma_event_keeps_invariant(old(self)@, event);
        }
        match self.lifecycle {
            Lifecycle::Ready => self.handle_live_event(event),
            Lifecycle::Closing => self.handle_closing_event(event),
            _ => false,
        }
    }
}

/// Whether `result` is what a setter that stages owes in `lifecycle`:
/// success before creation and when `Ready`; the not-initialized refusal
/// while the window is being built; a platform failure once it is closing or
/// closed.
pub open spec fn staged_outcome<T>(lifecycle: Lifecycle, result: Result<T, OverlayError>) -> bool {
    match lifecycle {
        Lifecycle::Uninitialized => result is Ok,
        _ => live_outcome(lifecycle, result),
    }
}

impl WindowState {
    /// A copy of the window record.
    fn window_copy(&self) -> (window: WindowModel)
        requires
            self@.window is Some,
        ensures
            window@ == self@.window.unwrap(),
    {
        match &self.window {
            Some(w) => w.clone(),
            None => WindowModel {
                id: 0,
                title: String::new(),
                position: Err(String::new()),
                size: WindowSize { width: 0, height: 0 },
                level: WindowLevel::Normal,
                visible: false,
                minimized: false,
                maximized: false,
                fullscreen: false,
                cursor_visible: false,
                click_through: false,
                transparent: false,
                decorations: false,
                resizable: false,
            },
        }
    }

    /// Replaces the window record.
    fn replace_window(&mut self, window: WindowModel)
        ensures
            final(self)@ == old(self)@.with_window(window@),
    {
        self.window = Some(window);
        assert(self@ =~= old(self)@.with_window(window@));
    }

    /// Replaces the staged values.
    fn replace_pending(&mut self, pending: PendingConfiguration)
        ensures
            final(self)@ == old(self)@.with_pending(pending@),
    {
        self.pending = Some(pending);
        assert(self@ =~= old(self)@.with_pending(pending@));
    }

    /// The staged values, empty when nothing was staged; they leave the state.
    fn staged_values(&mut self) -> (staged: PendingConfiguration)
        ensures
            staged@ == old(self)@.staged(),
            final(self)@.with_pending(staged@) == old(self)@.with_pending(staged@),
    {
        let staged = self.take_staged();
        assert(self@.with_pending(staged@) =~= old(self)@.with_pending(staged@));
        staged
    }
}

/// Operations on the window of a surface: visibility, position, size, title,
/// level, fullscreen, redraw requests and cursor behaviour.
#[derive(Debug, Clone, Copy, PartialEq, Eq, Structural)]
pub struct WindowController {}

impl WindowController {
    pub fn new() -> (controller: WindowController) {
        WindowController {  }
    }

    /// Registers the callback that is told of events; it takes the place of
    /// an earlier one.
    pub fn set_event_callback(&self, state: &mut WindowState, callback: CallbackHandle)
        requires
            old(state).wf(),
        ensures
            final(state).wf(),
            final(state)@ == (WindowStateView { callback: Some(callback), ..old(state)@ }),
    {
        state.callback = Some(callback);
        assert(state@ =~= (WindowStateView { callback: Some(callback), ..old(state)@ }));
    }

    /// Makes the window visible.
    pub fn show(&self, state: &mut WindowState) -> (result: Result<(), OverlayError>)
        requires
            old(state).wf(),
        ensures
            final(state).wf(),
            live_outcome(old(state)@.lifecycle, result),
            result is Ok ==> final(state)@ == old(state)@.with_window(
                WindowModelView { visible: true, ..old(state)@.window.unwrap() },
            ).emit(WindowCommand::SetVisible(true)),
            result is Err ==> final(state)@ == old(state)@,
    {
        match state.lifecycle {
            Lifecycle::Ready => {},
            _ => {
                return state.refusal();
            },
        }
        let mut window = state.window_copy();
        window.visible = true;
        state.replace_window(window);
        state.push(WindowCommand::SetVisible(true));
        Ok(())
    }

    /// Hides the window.
    pub fn hide_window(&self, state: &mut WindowState) -> (result: Result<(), OverlayError>)
        requires
            old(state).wf(),
        ensures
            final(state).wf(),
            live_outcome(old(state)@.lifecycle, result),
            result is Ok ==> final(state)@ == old(state)@.with_window(
                WindowModelView { visible: false, ..old(state)@.window.unwrap() },
            ).emit(WindowCommand::SetVisible(false)),
            result is Err ==> final(state)@ == old(state)@,
    {
        match state.lifecycle {
            Lifecycle::Ready => {},
            _ => {
                return state.refusal();
            },
        }
        let mut window = state.window_copy();
        window.visible = false;
        state.replace_window(window);
        state.push(WindowCommand::SetVisible(false));
        Ok(())
    }

    /// Minimizes the window.
    pub fn minimize(&self, state: &mut WindowState) -> (result: Result<(), OverlayError>)
        requires
            old(state).wf(),
        ensures
            final(state).wf(),
            live_outcome(old(state)@.lifecycle, result),
            result is Ok ==> final(state)@ == old(state)@.with_window(
                WindowModelView { minimized: true, ..old(state)@.window.unwrap() },
            ).emit(WindowCommand::SetMinimized(true)),
            result is Err ==> final(state)@ == old(state)@,
    {
        match state.lifecycle {
            Lifecycle::Ready => {},
            _ => {
                return state.refusal();
            },
        }
        let mut window = state.window_copy();
        window.minimized = true;
        state.replace_window(window);
        state.push(WindowCommand::SetMinimized(true));
        Ok(())
    }

    /// Maximizes the window.
    pub fn maximize(&self, state: &mut WindowState) -> (result: Result<(), OverlayError>)
        requires
            old(state).wf(),
        ensures
            final(state).wf(),
            live_outcome(old(state)@.lifecycle, result),
            result is Ok ==> final(state)@ == old(state)@.with_window(
                WindowModelView { maximized: true, ..old(state)@.window.unwrap() },
            ).emit(WindowCommand::SetMaximized(true)),
            result is Err ==> final(state)@ == old(state)@,
    {
        match state.lifecycle {
            Lifecycle::Ready => {},
            _ => {
                return state.refusal();
            },
        }
        let mut window = state.window_copy();
        window.maximized = true;
        state.replace_window(window);
        state.push(WindowCommand::SetMaximized(true));
        Ok(())
    }

    /// Ends both the minimized and the maximized state of the window.
    pub fn restore(&self, state: &mut WindowState) -> (result: Result<(), OverlayError>)
        requires
            old(state).wf(),
        ensures
            final(state).wf(),
            live_outcome(old(state)@.lifecycle, result),
            result is Ok ==> final(state)@ == old(state)@.with_window(
                WindowModelView {
                    minimized: false,
                    maximized: false,
                    ..old(state)@.window.unwrap()
                },
            ).emit(WindowCommand::SetMinimized(false)).emit(WindowCommand::SetMaximized(false)),
            result is Err ==> final(state)@ == old(state)@,
    {
        match state.lifecycle {
            Lifecycle::Ready => {},
            _ => {
                return state.refusal();
            },
        }
        let mut window = state.window_copy();
        window.minimized = false;
        window.maximized = false;
        state.replace_window(window);
        state.push(WindowCommand::SetMinimized(false));
        state.push(WindowCommand::SetMaximized(false));
        Ok(())
    }

    /// Enters or leaves borderless fullscreen.
    pub fn set_fullscreen(&self, state: &mut WindowState, fullscreen: bool) -> (result: Result<
        (),
        OverlayError,
    >)
        requires
            old(state).wf(),
        ensures
            final(state).wf(),
            live_outcome(old(state)@.lifecycle, result),
            result is Ok ==> final(state)@ == old(state)@.with_window(
                WindowModelView { fullscreen, ..old(state)@.window.unwrap() },
            ).emit(WindowCommand::SetFullscreen(fullscreen)),
            result is Err ==> final(state)@ == old(state)@,
    {
        match state.lifecycle {
            Lifecycle::Ready => {},
            _ => {
                return state.refusal();
            },
        }
        let mut window = state.window_copy();
        window.fullscreen = fullscreen;
        state.replace_window(window);
        state.push(WindowCommand::SetFullscreen(fullscreen));
        Ok(())
    }

    /// Whether the window is fullscreen.
    pub fn is_fullscreen(&self, state: &WindowState) -> (result: Result<bool, OverlayError>)
        requires
            state.wf(),
        ensures
            live_outcome(state@.lifecycle, result),
            result matches Ok(fullscreen) ==> fullscreen == state@.window.unwrap().fullscreen,
    {
        match state.lifecycle {
            Lifecycle::Ready => {},
            _ => {
                return state.refusal();
            },
        }
        match &state.window {
            Some(window) => Ok(window.fullscreen),
            None => Err(OverlayError::NotInitialized),
        }
    }

    /// Moves the window to `(x, y)`; before creation the position is staged.
    pub fn set_position(&self, state: &mut WindowState, x: i32, y: i32) -> (result: Result<
        (),
        OverlayError,
    >)
        requires
            old(state).wf(),
        ensures
            final(state).wf(),
            staged_outcome(old(state)@.lifecycle, result),
            old(state)@.lifecycle is Ready ==> final(state)@ == old(state)@.with_window(
                WindowModelView {
                    position: Ok(WindowPosition { x, y }),
                    ..old(state)@.window.unwrap()
                },
            ).emit(WindowCommand::SetPosition(WindowPosition { x, y })),
            old(state)@.lifecycle is Uninitialized ==> final(state)@ == old(state)@.with_pending(
                PendingView {
                    config: WindowConfigView {
                        x: Some(x),
                        y: Some(y),
                        ..old(state)@.staged().config
                    },
                    ..old(state)@.staged()
                },
            ),
            result is Err ==> final(state)@ == old(state)@,
    {
        match state.lifecycle {
            Lifecycle::Ready => {
                let mut window = state.window_copy();
                window.position = Ok(WindowPosition { x, y });
                state.replace_window(window);
                state.push(WindowCommand::SetPosition(WindowPosition { x, y }));
                Ok(())
            },
            Lifecycle::Uninitialized => {
                let mut staged = state.staged_values();
                staged.config.x = Some(x);
                staged.config.y = Some(y);
                state.replace_pending(staged);
                Ok(())
            },
            _ => state.refusal(),
        }
    }

    /// The position of the window: the one that was set or reported last.
    /// When the platform could not tell the position and none was set
    /// since, the platform's detail is handed on as a platform failure.
    pub fn get_position(&self, state: &WindowState) -> (result: Result<
        WindowPosition,
        OverlayError,
    >)
        requires
            state.wf(),
        ensures
            !(state@.lifecycle is Ready) ==> live_outcome(state@.lifecycle, result),
            state@.lifecycle is Ready ==> match state@.window.unwrap().position {
                Ok(position) => result == Ok::<WindowPosition, OverlayError>(position),
                Err(detail) => result matches Err(OverlayError::PlatformFailure(message))
                    && message@ == position_failure_text(detail),
            },
    {
        match state.lifecycle {
            Lifecycle::Ready => {},
            _ => {
                return state.refusal();
            },
        }
        match &state.window {
            Some(window) => match &window.position {
                Ok(position) => Ok(*position),
                Err(detail) => Err(
                    OverlayError::PlatformFailure(
                        joined("Failed to get position: ", detail.as_str()),
                    ),
                ),
            },
            None => Err(OverlayError::NotInitialized),
        }
    }

    /// Resizes the window; before creation the size is staged.
    pub fn set_size(&self, state: &mut WindowState, width: u32, height: u32) -> (result: Result<
        (),
        OverlayError,
    >)
        requires
            old(state).wf(),
        ensures
            final(state).wf(),
            staged_outcome(old(state)@.lifecycle, result),
            old(state)@.lifecycle is Ready ==> final(state)@ == old(state)@.with_window(
                WindowModelView {
                    size: WindowSize { width, height },
                    ..old(state)@.window.unwrap()
                },
            ).emit(WindowCommand::SetSize(WindowSize { width, height })),
            old(state)@.lifecycle is Uninitialized ==> final(state)@ == old(state)@.with_pending(
                PendingView {
                    config: WindowConfigView {
                        width: Some(width),
                        height: Some(height),
                        ..old(state)@.staged().config
                    },
                    ..old(state)@.staged()
                },
            ),
            result is Err ==> final(state)@ == old(state)@,
    {
        match state.lifecycle {
            Lifecycle::Ready => {
                let mut window = state.window_copy();
                window.size = WindowSize { width, height };
                state.replace_window(window);
                state.push(WindowCommand::SetSize(WindowSize { width, height }));
                Ok(())
            },
            Lifecycle::Uninitialized => {
                let mut staged = state.staged_values();
                staged.config.width = Some(width);
                staged.config.height = Some(height);
                state.replace_pending(staged);
                Ok(())
            },
            _ => state.refusal(),
        }
    }

    /// The size of the window.
    pub fn get_size(&self, state: &WindowState) -> (result: Result<WindowSize, OverlayError>)
        requires
            state.wf(),
        ensures
            live_outcome(state@.lifecycle, result),
            result matches Ok(size) ==> size == state@.window.unwrap().size,
    {
        match state.lifecycle {
            Lifecycle::Ready => {},
            _ => {
                return state.refusal();
            },
        }
        match &state.window {
            Some(window) => Ok(window.size),
            None => Err(OverlayError::NotInitialized),
        }
    }

    /// Sets the title of the window; before creation the title is staged.
    pub fn set_title(&self, state: &mut WindowState, title: &str) -> (result: Result<
        (),
        OverlayError,
    >)
        requires
            old(state).wf(),
        ensures
            final(state).wf(),
            staged_outcome(old(state)@.lifecycle, result),
            old(state)@.lifecycle is Ready ==> final(state)@ == old(state)@.with_window(
                WindowModelView { title: title@, ..old(state)@.window.unwrap() },
            ).emit(WindowCommand::SetTitle),
            old(state)@.lifecycle is Uninitialized ==> final(state)@ == old(state)@.with_pending(
                PendingView {
                    config: WindowConfigView {
                        title: Some(title@),
                        ..old(state)@.staged().config
                    },
                    ..old(state)@.staged()
                },
            ),
            result is Err ==> final(state)@ == old(state)@,
    {
        match state.lifecycle {
            Lifecycle::Ready => {
                let mut window = state.window_copy();
                window.title = String::from_str(title);
                state.replace_window(window);
                state.push(WindowCommand::SetTitle);
                Ok(())
            },
            Lifecycle::Uninitialized => {
                let mut staged = state.staged_values();
                staged.config.title = Some(String::from_str(title));
                state.replace_pending(staged);
                Ok(())
            },
            _ => state.refusal(),
        }
    }

    /// Sets the level of the window; before creation the level is staged.
    pub fn set_window_level(&self, state: &mut WindowState, level: WindowLevel) -> (result:
        Result<(), OverlayError>)
        requires
            old(state).wf(),
        ensures
            final(state).wf(),
            staged_outcome(old(state)@.lifecycle, result),
            old(state)@.lifecycle is Ready ==> final(state)@ == old(state)@.with_window(
                WindowModelView { level, ..old(state)@.window.unwrap() },
            ).emit(WindowCommand::SetWindowLevel(level)),
            old(state)@.lifecycle is Uninitialized ==> final(state)@ == old(state)@.with_pending(
                PendingView { window_level: Some(level), ..old(state)@.staged() },
            ),
            result is Err ==> final(state)@ == old(state)@,
    {
        match state.lifecycle {
            Lifecycle::Ready => {
                let mut window = state.window_copy();
                window.level = level;
                state.replace_window(window);
                state.push(WindowCommand::SetWindowLevel(level));
                Ok(())
            },
            Lifecycle::Uninitialized => {
                let mut staged = state.staged_values();
                staged.window_level = Some(level);
                state.replace_pending(staged);
                Ok(())
            },
            _ => state.refusal(),
        }
    }

    /// Whether the window is visible.
    pub fn is_visible(&self, state: &WindowState) -> (result: Result<bool, OverlayError>)
        requires
            state.wf(),
        ensures
            live_outcome(state@.lifecycle, result),
            result matches Ok(visible) ==> visible == state@.window.unwrap().visible,
    {
        match state.lifecycle {
            Lifecycle::Ready => {},
            _ => {
                return state.refusal();
            },
        }
        match &state.window {
            Some(window) => Ok(window.visible),
            None => Err(OverlayError::NotInitialized),
        }
    }

    /// Asks the platform to redraw the window.
    pub fn request_redraw(&self, state: &mut WindowState) -> (result: Result<(), OverlayError>)
        requires
            old(state).wf(),
        ensures
            final(state).wf(),
            live_outcome(old(state)@.lifecycle, result),
            result is Ok ==> final(state)@ == old(state)@.emit(WindowCommand::RequestRedraw),
            result is Err ==> final(state)@ == old(state)@,
    {
        match state.lifecycle {
            Lifecycle::Ready => {},
            _ => {
                return state.refusal();
            },
        }
        state.push(WindowCommand::RequestRedraw);
        Ok(())
    }

    /// Shows or hides the cursor over the window.
    pub fn set_cursor_visible(&self, state: &mut WindowState, visible: bool) -> (result: Result<
        (),
        OverlayError,
    >)
        requires
            old(state).wf(),
        ensures
            final(state).wf(),
            live_outcome(old(state)@.lifecycle, result),
            result is Ok ==> final(state)@ == old(state)@.with_window(
                WindowModelView { cursor_visible: visible, ..old(state)@.window.unwrap() },
            ).emit(WindowCommand::SetCursorVisible(visible)),
            result is Err ==> final(state)@ == old(state)@,
    {
        match state.lifecycle {
            Lifecycle::Ready => {},
            _ => {
                return state.refusal();
            },
        }
        let mut window = state.window_copy();
        window.cursor_visible = visible;
        state.replace_window(window);
        state.push(WindowCommand::SetCursorVisible(visible));
        Ok(())
    }

    /// Asks the platform to let mouse events pass through the window
    /// (`ignore`) or not: the window takes part in hit testing exactly when
    /// it does not ignore them. The window record changes when the
    /// platform's answer is reported with
    /// [`WindowController::finish_ignore_mouse_events`].
    pub fn set_ignore_mouse_events(&self, state: &mut WindowState, ignore: bool) -> (result:
        Result<(), OverlayError>)
        requires
            old(state).wf(),
        ensures
            final(state).wf(),
            live_outcome(old(state)@.lifecycle, result),
            result is Ok ==> final(state)@ == old(state)@.emit(
                WindowCommand::SetCursorHittest(!ignore),
            ),
            result is Err ==> final(state)@ == old(state)@,
    {
        match state.lifecycle {
            Lifecycle::Ready => {},
            _ => {
                return state.refusal();
            },
        }
        state.push(WindowCommand::SetCursorHittest(!ignore));
        Ok(())
    }

    /// Ends a change of hit testing with the platform's answer `outcome`.
    /// When the platform agreed, the window record notes whether mouse
    /// events pass through. When it refused, the failure is handed on with
    /// its detail and nothing changes.
    pub fn finish_ignore_mouse_events(
        &self,
        state: &mut WindowState,
        ignore: bool,
        outcome: Result<(), String>,
    ) -> (result: Result<(), OverlayError>)
        requires
            old(state).wf(),
        ensures
            final(state).wf(),
            !(old(state)@.lifecycle is Ready) ==> {
                &&& live_outcome(old(state)@.lifecycle, result)
                &&& final(state)@ == old(state)@
            },
            old(state)@.lifecycle is Ready ==> match outcome {
                Ok(_) => {
                    &&& result is Ok
                    &&& final(state)@ == old(state)@.with_window(
                        WindowModelView { click_through: ignore, ..old(state)@.window.unwrap() },
                    )
                },
                Err(detail) => {
                    &&& result matches Err(OverlayError::PlatformFailure(message))
                    &&& message@ == hittest_failure_text(detail@)
                    &&& final(state)@ == old(state)@
                },
            },
    {
        match state.lifecycle {
            Lifecycle::Ready => {},
            _ => {
                return state.refusal();
            },
        }
        match outcome {
            Ok(_) => {
                let mut window = state.window_copy();
                window.click_through = ignore;
                state.replace_window(window);
                Ok(())
            },
            Err(detail) => Err(
                OverlayError::PlatformFailure(joined("Failed to set hittest: ", detail.as_str())),
            ),
        }
    }

    /// Sets whether the frame is presented while the window is occluded;
    /// before creation the value is staged as well.
    pub fn set_render_when_occluded(&self, state: &mut WindowState, render: bool)
        requires
            old(state).wf(),
        ensures
            final(state).wf(),
            old(state)@.lifecycle is Uninitialized ==> final(state)@ == (WindowStateView {
                render_when_occluded: render,
                ..old(state)@
            }).with_pending(
                PendingView {
                    config: WindowConfigView {
                        render_when_occluded: Some(render),
                        ..old(state)@.staged().config
                    },
                    ..old(state)@.staged()
                },
            ),
            !(old(state)@.lifecycle is Uninitialized) ==> final(state)@ == (WindowStateView {
                render_when_occluded: render,
                ..old(state)@
            }),
    {
        state.render_when_occluded = render;
        assert(state@ =~= (WindowStateView { render_when_occluded: render, ..old(state)@ }));
        match state.lifecycle {
            Lifecycle::Uninitialized => {
                let mut staged = state.staged_values();
                staged.config.render_when_occluded = Some(render);
                state.replace_pending(staged);
            },
            _ => {},
        }
    }

    /// Whether the platform reported the window as occluded.
    pub fn is_occluded(&self, state: &WindowState) -> (occluded: bool)
        ensures
            occluded == state@.occluded,
    {
        state.occluded
    }
}

/// Operations on the frame of a surface: update, clear, drawing, image
/// copy, presentation and resize.
#[derive(Debug, Clone, Copy, PartialEq, Eq, Structural)]
pub struct FrameController {}

impl FrameController {
    pub fn new() -> (controller: FrameController) {
        FrameController {  }
    }

    /// Replaces the frame by `buffer_data`, whose length must be that of the
    /// frame, and requests a redraw. A buffer of another length is refused
    /// as an invalid argument and the frame stays as it is. Before creation
    /// the buffer is staged as the first frame.
    pub fn update_frame(&self, state: &mut WindowState, buffer_data: &[u8]) -> (result: Result<
        (),
        OverlayError,
    >)
        requires
            old(state).wf(),
        ensures
            final(state).wf(),
            old(state)@.lifecycle is Ready ==> if buffer_data@.len() == old(state)@.frame.len() {
                &&& result is Ok
                &&& final(state)@ == old(state)@.with_frame(buffer_data@).emit(
                    WindowCommand::RequestRedraw,
                )
            } else {
                &&& result matches Err(OverlayError::InvalidArgument(message))
                &&& message@ == size_mismatch_text(old(state)@.frame.len(), buffer_data@.len())
                &&& final(state)@ == old(state)@
            },
            old(state)@.lifecycle is Uninitialized ==> {
                &&& result is Ok
                &&& final(state)@ == old(state)@.with_pending(
                    PendingView { initial_frame: Some(buffer_data@), ..old(state)@.staged() },
                )
            },
            !(old(state)@.lifecycle is Ready) && !(old(state)@.lifecycle is Uninitialized) ==> {
                &&& live_outcome(old(state)@.lifecycle, result)
                &&& final(state)@ == old(state)@
            },
    {
        match state.lifecycle {
            Lifecycle::Ready => {
                if buffer_data.len() != state.frame.len() {
                    let mut message = String::from_str("Buffer size mismatch: expected ");
                    push_decimal(&mut message, state.frame.len());
                    message.append(" bytes, got ");
                    push_decimal(&mut message, buffer_data.len());
                    message.append(" bytes");
                    return Err(OverlayError::InvalidArgument(message));
                }
                state.frame = slice_to_vec(buffer_data);
                assert(state@ =~= old(state)@.with_frame(buffer_data@));
                state.push(WindowCommand::RequestRedraw);
                Ok(())
            },
            Lifecycle::Uninitialized => {
                let mut staged = state.staged_values();
                staged.initial_frame = Some(slice_to_vec(buffer_data));
                state.replace_pending(staged);
                Ok(())
            },
            _ => state.refusal(),
        }
    }

    /// The declared width and height of the frame, in that order.
    pub fn get_frame_size(&self, state: &WindowState) -> (result: Result<Vec<u32>, OverlayError>)
        requires
            state.wf(),
        ensures
            live_outcome(state@.lifecycle, result),
            result matches Ok(size) ==> size@ == seq![state@.width, state@.height],
    {
        match state.lifecycle {
            Lifecycle::Ready => {},
            _ => {
                return state.refusal();
            },
        }
        let mut size: Vec<u32> = Vec::new();
        size.push(state.width);
        size.push(state.height);
        assert(size@ =~= seq![state@.width, state@.height]);
        Ok(size)
    }

    /// Sets every pixel of the frame to `color` and requests a redraw.
    pub fn clear_frame(&self, state: &mut WindowState, color: &Color) -> (result: Result<
        (),
        OverlayError,
    >)
        requires
            old(state).wf(),
        ensures
            final(state).wf(),
            live_outcome(old(state)@.lifecycle, result),
            result is Ok ==> final(state)@ == old(state)@.with_frame(
                painted(old(state)@.frame.len(), *color, old(state)@.frame),
            ).emit(WindowCommand::RequestRedraw),
            result is Err ==> final(state)@ == old(state)@,
    {
        match state.lifecycle {
            Lifecycle::Ready => {},
            _ => {
                return state.refusal();
            },
        }
        clear_buffer_optimized(state.frame.as_mut_slice(), state.width, state.height, color);
        assert(state@ =~= old(state)@.with_frame(
            painted(old(state)@.frame.len(), *color, old(state)@.frame),
        ));
        state.push(WindowCommand::RequestRedraw);
        Ok(())
    }

    /// Paints a rectangle, clamped to the frame, and requests a redraw.
    pub fn draw_rectangle(
        &self,
        state: &mut WindowState,
        x: u32,
        y: u32,
        width: u32,
        height: u32,
        color: &Color,
    ) -> (result: Result<(), OverlayError>)
        requires
            old(state).wf(),
        ensures
            final(state).wf(),
            live_outcome(old(state)@.lifecycle, result),
            result is Ok ==> final(state)@ == old(state)@.with_frame(
                rectangle_painted(
                    old(state)@.frame,
                    RectangleParams {
                        x,
                        y,
                        width,
                        height,
                        frame_width: old(state)@.width as usize,
                        frame_height: old(state)@.height as usize,
                    },
                    *color,
                ),
            ).emit(WindowCommand::RequestRedraw),
            result is Err ==> final(state)@ == old(state)@,
    {
        match state.lifecycle {
            Lifecycle::Ready => {},
            _ => {
                return state.refusal();
            },
        }
        let params = RectangleParams {
            x,
            y,
            width,
            height,
            frame_width: state.width as usize,
            frame_height: state.height as usize,
        };
        draw_rectangle_optimized(state.frame.as_mut_slice(), params, color);
        assert(state@ =~= old(state)@.with_frame(
            rectangle_painted(old(state)@.frame, params, *color),
        ));
        state.push(WindowCommand::RequestRedraw);
        Ok(())
    }

    /// Draws a line, clipped to the frame, and requests a redraw.
    pub fn draw_line(
        &self,
        state: &mut WindowState,
        x1: u32,
        y1: u32,
        x2: u32,
        y2: u32,
        color: &Color,
    ) -> (result: Result<(), OverlayError>)
        requires
            old(state).wf(),
        ensures
            final(state).wf(),
            live_outcome(old(state)@.lifecycle, result),
            result is Ok ==> final(state)@ == old(state)@.with_frame(
                plot_all(
                    old(state)@.frame,
                    line_points(x1 as int, y1 as int, x2 as int, y2 as int),
                    old(state)@.width as int,
                    old(state)@.height as int,
                    *color,
                ),
            ).emit(WindowCommand::RequestRedraw),
            result is Err ==> final(state)@ == old(state)@,
    {
        match state.lifecycle {
            Lifecycle::Ready => {},
            _ => {
                return state.refusal();
            },
        }
        let params = LineParams {
            x1,
            y1,
            x2,
            y2,
            buffer_width: state.width,
            buffer_height: state.height,
            color: *color,
        };
        draw_line_optimized(state.frame.as_mut_slice(), params, color);
        proof {
            lemma_plot_all_len(
                old(state)@.frame,
                line_points(x1 as int, y1 as int, x2 as int, y2 as int),
                old(state)@.width as int,
                old(state)@.height as int,
                *color,
            );
        }
        assert(state@ =~= old(state)@.with_frame(
            plot_all(
                old(state)@.frame,
                line_points(x1 as int, y1 as int, x2 as int, y2 as int),
                old(state)@.width as int,
                old(state)@.height as int,
                *color,
            ),
        ));
        state.push(WindowCommand::RequestRedraw);
        Ok(())
    }

    /// Draws a circle, clipped to the frame, and requests a redraw.
    pub fn draw_circle(
        &self,
        state: &mut WindowState,
        cx: u32,
        cy: u32,
        radius: u32,
        color: &Color,
    ) -> (result: Result<(), OverlayError>)
        requires
            old(state).wf(),
        ensures
            final(state).wf(),
            live_outcome(old(state)@.lifecycle, result),
            result is Ok ==> final(state)@ == old(state)@.with_frame(
                plot_all(
                    old(state)@.frame,
                    circle_points(cx as int, cy as int, radius as int),
                    old(state)@.width as int,
                    old(state)@.height as int,
                    *color,
                ),
            ).emit(WindowCommand::RequestRedraw),
            result is Err ==> final(state)@ == old(state)@,
    {
        match state.lifecycle {
            Lifecycle::Ready => {},
            _ => {
                return state.refusal();
            },
        }
        draw_circle_optimized(
            state.frame.as_mut_slice(),
            cx,
            cy,
            radius,
            state.width,
            state.height,
            color,
        );
        proof {
            lemma_plot_all_len(
                old(state)@.frame,
                circle_points(cx as int, cy as int, radius as int),
                old(state)@.width as int,
                old(state)@.height as int,
                *color,
            );
        }
        assert(state@ =~= old(state)@.with_frame(
            plot_all(
                old(state)@.frame,
                circle_points(cx as int, cy as int, radius as int),
                old(state)@.width as int,
                old(state)@.height as int,
                *color,
            ),
        ));
        state.push(WindowCommand::RequestRedraw);
        Ok(())
    }

    /// Writes one pixel and requests a redraw. A pixel whose bytes do not
    /// lie in the frame is refused as an invalid argument and the frame
    /// stays as it is.
    pub fn draw_pixel(&self, state: &mut WindowState, x: u32, y: u32, color: &Color) -> (result:
        Result<(), OverlayError>)
        requires
            old(state).wf(),
        ensures
            final(state).wf(),
            !(old(state)@.lifecycle is Ready) ==> {
                &&& live_outcome(old(state)@.lifecycle, result)
                &&& final(state)@ == old(state)@
            },
            old(state)@.lifecycle is Ready ==> if pixel_fits(
                pixel_index(x as int, y as int, old(state)@.width as int),
                old(state)@.frame.len() as int,
            ) {
                &&& result is Ok
                &&& final(state)@ == old(state)@.with_frame(
                    with_pixel(
                        old(state)@.frame,
                        pixel_index(x as int, y as int, old(state)@.width as int),
                        *color,
                    ),
                ).emit(WindowCommand::RequestRedraw)
            } else {
                &&& result matches Err(OverlayError::InvalidArgument(message))
                &&& message@ == crate::buffer::out_of_bounds_text()
                &&& final(state)@ == old(state)@
            },
    {
        match state.lifecycle {
            Lifecycle::Ready => {},
            _ => {
                return state.refusal();
            },
        }
        match draw_pixel_safe(state.frame.as_mut_slice(), x, y, state.width, color) {
            Ok(()) => {
                assert(state@ =~= old(state)@.with_frame(
                    with_pixel(
                        old(state)@.frame,
                        pixel_index(x as int, y as int, old(state)@.width as int),
                        *color,
                    ),
                ));
                state.push(WindowCommand::RequestRedraw);
                Ok(())
            },
            Err(message) => {
                assert(state@ =~= old(state)@);
                Err(OverlayError::InvalidArgument(message))
            },
        }
    }

    /// Copies `image` to `(x, y)` of the frame, dropping what lies beyond the
    /// frame, and requests a redraw.
    pub fn draw_image(&self, state: &mut WindowState, x: u32, y: u32, image: &DecodedImage) -> (result:
        Result<(), OverlayError>)
        requires
            old(state).wf(),
        ensures
            final(state).wf(),
            live_outcome(old(state)@.lifecycle, result),
            result is Ok ==> final(state)@ == old(state)@.with_frame(
                blitted(
                    old(state)@.frame,
                    x as int,
                    y as int,
                    image@.data,
                    image@.width as int,
                    image@.height as int,
                    old(state)@.width as int,
                    old(state)@.height as int,
                ),
            ).emit(WindowCommand::RequestRedraw),
            result is Err ==> final(state)@ == old(state)@,
    {
        match state.lifecycle {
            Lifecycle::Ready => {},
            _ => {
                return state.refusal();
            },
        }
        blit(
            state.frame.as_mut_slice(),
            x,
            y,
            image.data.as_slice(),
            image.width,
            image.height,
            state.width,
            state.height,
        );
        assert(state@ =~= old(state)@.with_frame(
            blitted(
                old(state)@.frame,
                x as int,
                y as int,
                image@.data,
                image@.width as int,
                image@.height as int,
                old(state)@.width as int,
                old(state)@.height as int,
            ),
        ));
        state.push(WindowCommand::RequestRedraw);
        Ok(())
    }

    /// A copy of the frame.
    pub fn get_frame_buffer(&self, state: &WindowState) -> (result: Result<Vec<u8>, OverlayError>)
        requires
            state.wf(),
        ensures
            live_outcome(state@.lifecycle, result),
            result matches Ok(frame) ==> frame@ == state@.frame,
    {
        match state.lifecycle {
            Lifecycle::Ready => {},
            _ => {
                return state.refusal();
            },
        }
        Ok(slice_to_vec(state.frame.as_slice()))
    }

    /// Presents the frame, unless the window is occluded and frames are not
    /// presented while it is: then nothing happens, and that is no error.
    pub fn render(&self, state: &mut WindowState) -> (result: Result<(), OverlayError>)
        requires
            old(state).wf(),
        ensures
            final(state).wf(),
            live_outcome(old(state)@.lifecycle, result),
            result is Ok && old(state)@.presents() ==> final(state)@ == old(state)@.emit(
                WindowCommand::Present,
            ),
            result is Ok && !old(state)@.presents() ==> final(state)@ == old(state)@,
            result is Err ==> final(state)@ == old(state)@,
    {
        match state.lifecycle {
            Lifecycle::Ready => {},
            _ => {
                return state.refusal();
            },
        }
        if !state.occluded || state.render_when_occluded {
            state.push(WindowCommand::Present);
        }
        Ok(())
    }

    /// Begins a resize of the frame to `width` by `height`: the surface is
    /// asked to follow, and nothing else changes until its answer is
    /// reported with [`FrameController::finish_resize`]. A frame whose byte
    /// length does not fit in memory is refused as a platform failure and
    /// nothing is asked.
    pub fn resize(&self, state: &mut WindowState, width: u32, height: u32) -> (result: Result<
        (),
        OverlayError,
    >)
        requires
            old(state).wf(),
        ensures
            final(state).wf(),
            !(old(state)@.lifecycle is Ready) ==> {
                &&& live_outcome(old(state)@.lifecycle, result)
                &&& final(state)@ == old(state)@
            },
            old(state)@.lifecycle is Ready ==> if frame_len(width as int, height as int)
                <= usize::MAX {
                &&& result is Ok
                &&& final(state)@ == old(state)@.emit(
                    WindowCommand::ResizeSurface(WindowSize { width, height }),
                )
            } else {
                &&& result matches Err(OverlayError::PlatformFailure(message))
                &&& message@ == resize_failure_text(frame_too_large_text())
                &&& final(state)@ == old(state)@
            },
    {
        match state.lifecycle {
            Lifecycle::Ready => {},
            _ => {
                return state.refusal();
            },
        }
        if checked_buffer_size(width, height).is_none() {
            return Err(
                OverlayError::PlatformFailure(
                    joined("Failed to resize: ", "frame size exceeds addressable memory"),
                ),
            );
        }
        state.ask_resize(WindowSize { width, height });
        Ok(())
    }

    /// Ends a resize with the answer `outcome` of the presentation backend
    /// to the request for `size`. When the backend followed, the frame is
    /// resized with it (it keeps its leading bytes and is zero after them),
    /// the declared width and height become those of `size`, and a redraw is
    /// requested. When the backend failed, the failure is handed on with its
    /// detail and nothing changes: frame, declared size and queue stay as
    /// they were, so the declared size and the backend's buffer never part.
    pub fn finish_resize(
        &self,
        state: &mut WindowState,
        size: WindowSize,
        outcome: Result<(), String>,
    ) -> (result: Result<(), OverlayError>)
        requires
            old(state).wf(),
        ensures
            final(state).wf(),
            !(old(state)@.lifecycle is Ready) ==> {
                &&& live_outcome(old(state)@.lifecycle, result)
                &&& final(state)@ == old(state)@
            },
            old(state)@.lifecycle is Ready ==> match outcome {
                Ok(_) => if frame_len(size.width as int, size.height as int) <= usize::MAX {
                    &&& result is Ok
                    &&& final(state)@ == old(state)@.surface_resized(size)
                } else {
                    &&& result matches Err(OverlayError::PlatformFailure(message))
                    &&& message@ == resize_failure_text(frame_too_large_text())
                    &&& final(state)@ == old(state)@
                },
                Err(detail) => {
                    &&& result matches Err(OverlayError::PlatformFailure(message))
                    &&& message@ == resize_failure_text(detail@)
                    &&& final(state)@ == old(state)@
                },
            },
    {
        match state.lifecycle {
            Lifecycle::Ready => {},
            _ => {
                return state.refusal();
            },
        }
        match outcome {
            Ok(_) => match checked_buffer_size(size.width, size.height) {
                Some(len) => {
                    state.follow_resize(size, len);
                    Ok(())
                },
                None => Err(
                    OverlayError::PlatformFailure(
                        joined("Failed to resize: ", "frame size exceeds addressable memory"),
                    ),
                ),
            },
            Err(detail) => Err(
                OverlayError::PlatformFailure(joined("Failed to resize: ", detail.as_str())),
            ),
        }
    }
}

impl WindowState {
    pub fn lifecycle(&self) -> (lifecycle: Lifecycle)
        ensures
            lifecycle == self@.lifecycle,
    {
        self.lifecycle
    }

    /// The window record, while the surface exists.
    pub fn window(&self) -> (window: Option<&WindowModel>)
        ensures
            match window {
                Some(w) => self@.window == Some(w@),
                None => self@.window is None,
            },
    {
        self.window.as_ref()
    }

    /// The values staged so far.
    pub fn pending(&self) -> (pending: Option<&PendingConfiguration>)
        ensures
            match pending {
                Some(p) => self@.pending == Some(p@),
                None => self@.pending is None,
            },
    {
        self.pending.as_ref()
    }

    /// The pixel buffer of the surface; empty while there is none.
    pub fn frame(&self) -> (frame: &[u8])
        ensures
            frame@ == self@.frame,
    {
        self.frame.as_slice()
    }

    /// Declared width of the frame.
    pub fn width(&self) -> (width: u32)
        ensures
            width == self@.width,
    {
        self.width
    }

    /// Declared height of the frame.
    pub fn height(&self) -> (height: u32)
        ensures
            height == self@.height,
    {
        self.height
    }

    pub fn render_when_occluded(&self) -> (render: bool)
        ensures
            render == self@.render_when_occluded,
    {
        self.render_when_occluded
    }

    /// The registered callback, if any.
    pub fn callback(&self) -> (callback: Option<CallbackHandle>)
        ensures
            callback == self@.callback,
    {
        self.callback
    }

    /// The commands queued for the embedding, oldest first.
    pub fn commands(&self) -> (commands: &[WindowCommand])
        ensures
            commands@ == self@.commands,
    {
        self.commands.as_slice()
    }

    /// Whether the state satisfies its invariant. Every state that this
    /// module hands out does; the embedding may check before it relies on it.
    pub fn check_invariant(&self) -> (holds: bool)
        ensures
            holds == self.wf(),
    {
        let live = match self.lifecycle {
            Lifecycle::Ready | Lifecycle::Closing => true,
            _ => false,
        };
        let staged_in_time = match self.lifecycle {
            Lifecycle::Uninitialized => true,
            _ => self.pending.is_none(),
        };
        let actual = self.frame.len();
        let frame_matches = if self.window.is_some() {
            match checked_buffer_size(self.width, self.height) {
                Some(len) => actual == len,
                None => false,
            }
        } else {
            actual == 0
        };
        live == self.window.is_some() && frame_matches && staged_in_time
    }

    /// Hands the queued commands to the embedding and empties the queue.
    pub fn take_commands(&mut self) -> (commands: Vec<WindowCommand>)
        ensures
            commands@ == old(self)@.commands,
            final(self)@ == (WindowStateView { commands: Seq::empty(), ..old(self)@ }),
            old(self).wf() ==> final(self).wf(),
    {
        let mut commands: Vec<WindowCommand> = Vec::new();
        core::mem::swap(&mut commands, &mut self.commands);
        assert(self@ =~= (WindowStateView { commands: Seq::empty(), ..old(self)@ }));
        commands
    }
}

/// Whether `state` holds the window with `window_id`.
pub open spec fn owns(state: WindowStateView, window_id: u64) -> bool {
    state.window matches Some(w) && w.id == window_id
}

/// The contents of `windows`.
pub open spec fn views(windows: Seq<WindowState>) -> Seq<WindowStateView> {
    windows.map_values(|state: WindowState| state@)
}

/// Whether every state of `states` satisfies its invariant.
pub open spec fn all_wf(states: Seq<WindowStateView>) -> bool {
    forall|k: int| 0 <= k < states.len() ==> (#[trigger] states[k]).wf()
}

/// Index of the first state from `from` on that holds the window with
/// `window_id`; the length of `states` when there is none.
pub open spec fn target_from(states: Seq<WindowStateView>, window_id: u64, from: int) -> int
    decreases states.len() - from,
{
    if from < 0 || from >= states.len() {
        states.len() as int
    } else if owns(states[from], window_id) {
        from
    } else {
        target_from(states, window_id, from + 1)
    }
}

/// The states after the signal `event` for the window `window_id` was
/// dispatched: the first state that holds that window takes it, and no state
/// changes when none does.
pub open spec fn dispatched(
    states: Seq<WindowStateView>,
    window_id: u64,
    event: PlatformEvent,
) -> Seq<WindowStateView> {
    let k = target_from(states, window_id, 0);
    if k < states.len() {
        states.update(k, states[k].after_event(event))
    } else {
        states
    }
}

/// Whether dispatching `event` for the window `window_id` asks the loop to end.
pub open spec fn dispatch_exits(
    states: Seq<WindowStateView>,
    window_id: u64,
    event: PlatformEvent,
) -> bool {
    let k = target_from(states, window_id, 0);
    k < states.len() && states[k].exits_on(event)
}

/// Where a run over a sequence of signals ended.
#[verifier::ext_equal]
pub struct PumpOutcome {
    pub states: Seq<WindowStateView>,
    /// Number of signals dispatched, the one that ended the loop included.
    pub consumed: int,
    /// Whether a signal asked the loop to end.
    pub exit: bool,
}

/// The outcome of dispatching the signals of `events` from index `from` on,
/// in order, up to and including the first that asks the loop to end.
pub open spec fn pumped(
    states: Seq<WindowStateView>,
    events: Seq<TargetedEvent>,
    from: int,
) -> PumpOutcome
    decreases events.len() - from,
{
    if from < 0 || from >= events.len() {
        PumpOutcome { states, consumed: from, exit: false }
    } else {
        let next = dispatched(states, events[from].window_id, events[from].event);
        if dispatch_exits(states, events[from].window_id, events[from].event) {
            PumpOutcome { states: next, consumed: from + 1, exit: true }
        } else {
            pumped(next, events, from + 1)
        }
    }
}

/// Dispatching keeps the invariant of every state.
pub proof fn lemma_dispatch_keeps_invariant(
    states: Seq<WindowStateView>,
    window_id: u64,
    event: PlatformEvent,
)
    requires
        all_wf(states),
    ensures
        all_wf(dispatched(states, window_id, event)),
{
    let k = target_from(states, window_id, 0);
    if k < states.len() {
        lemma_target_in_range(states, window_id, 0);
        lemma_event_keeps_invariant(states[k], event);
    }
}

/// The target lies at or after `from`.
proof fn lemma_target_in_range(states: Seq<WindowStateView>, window_id: u64, from: int)
    requires
        0 <= from,
    ensures
        from <= target_from(states, window_id, from) || target_from(states, window_id, from)
            == states.len(),
        target_from(states, window_id, from) <= states.len(),
        target_from(states, window_id, from) < states.len() ==> owns(
            states[target_from(states, window_id, from)],
            window_id,
        ),
    decreases states.len() - from,
{
    if from < states.len() && !owns(states[from], window_id) {
        lemma_target_in_range(states, window_id, from + 1);
    }
}

/// Routes the signal `event` to the first state of `windows` that holds the
/// window `window_id` and applies it there; without such a state nothing
/// happens. Returns whether the event loop is to end.
pub fn dispatch_event(windows: &mut Vec<WindowState>, window_id: u64, event: PlatformEvent) -> (exit:
    bool)
    requires
        all_wf(views(old(windows)@)),
    ensures
        all_wf(views(final(windows)@)),
        views(final(windows)@) == dispatched(views(old(windows)@), window_id, event),
        exit == dispatch_exits(views(old(windows)@), window_id, event),
{
    let ghost before = views(windows@);
    proof {
        lemma_dispatch_keeps_invariant(before, window_id, event);
    }
    let mut index: usize = 0;
    while index < windows.len()
        invariant
            windows@ == old(windows)@,
            before == views(windows@),
            all_wf(before),
            all_wf(dispatched(before, window_id, event)),
            index <= windows.len(),
            target_from(before, window_id, 0) == target_from(before, window_id, index as int),
        decreases windows.len() - index,
    {
        let holds = match windows[index].window() {
            Some(w) => w.id == window_id,
            None => false,
        };
        assert(before[index as int] == windows@[index as int]@);
        if holds {
            assert(before[index as int].wf());
            let exit = windows[index].handle_event(event);
            assert(views(windows@) =~= dispatched(before, window_id, event));
            return exit;
        }
        index = index + 1;
    }
    assert(views(windows@) =~= dispatched(before, window_id, event));
    false
}

/// Runs the event loop over the signals of `events`: they are dispatched in
/// order until one asks the loop to end, which a close request for a window
/// that a state holds does. Returns the number of signals dispatched, the
/// last one included.
pub fn run_event_loop(windows: &mut Vec<WindowState>, events: &[TargetedEvent]) -> (consumed:
    usize)
    requires
        all_wf(views(old(windows)@)),
    ensures
        all_wf(views(final(windows)@)),
        views(final(windows)@) == pumped(views(old(windows)@), events@, 0).states,
        consumed == pumped(views(old(windows)@), events@, 0).consumed,
{
    let mut index: usize = 0;
    while index < events.len()
        invariant
            index <= events.len(),
            all_wf(views(windows@)),
            pumped(views(old(windows)@), events@, 0) == pumped(
                views(windows@),
                events@,
                index as int,
            ),
        decreases events.len() - index,
    {
        let next = events[index];
        let exit = dispatch_event(windows, next.window_id, next.event);
        index = index + 1;
        if exit {
            return index;
        }
    }
    index
}

/// The states after every signal of `events` from index `from` on was
/// dispatched, in order.
pub open spec fn polled(
    states: Seq<WindowStateView>,
    events: Seq<TargetedEvent>,
    from: int,
) -> Seq<WindowStateView>
    decreases events.len() - from,
{
    if from < 0 || from >= events.len() {
        states
    } else {
        polled(
            dispatched(states, events[from].window_id, events[from].event),
            events,
            from + 1,
        )
    }
}

/// Whether one of the first `count` signals of `events` is a close request,
/// for whichever window.
pub open spec fn close_requested(events: Seq<TargetedEvent>, count: int) -> bool {
    exists|k: int| 0 <= k < count && k < events.len() && (#[trigger] events[k]).event is CloseRequested
}

/// One bounded pump of the event loop: every pending signal of `events` is
/// dispatched, in order, and the pump returns without waiting for more.
/// Returns whether the application is to exit: it is exactly when one of
/// the signals is a close request, whether or not a state holds its window.
/// A window that a state holds enters `Closing` and its callback is told,
/// as with any dispatched signal.
pub fn poll_event_loop(windows: &mut Vec<WindowState>, events: &[TargetedEvent]) -> (exit: bool)
    requires
        all_wf(views(old(windows)@)),
    ensures
        all_wf(views(final(windows)@)),
        views(final(windows)@) == polled(views(old(windows)@), events@, 0),
        exit == close_requested(events@, events@.len() as int),
{
    let mut exit = false;
    let mut index: usize = 0;
    while index < events.len()
        invariant
            index <= events.len(),
            all_wf(views(windows@)),
            polled(views(old(windows)@), events@, 0) == polled(
                views(windows@),
                events@,
                index as int,
            ),
            exit == close_requested(events@, index as int),
        decreases events.len() - index,
    {
        let next = events[index];
        let _ = dispatch_event(windows, next.window_id, next.event);
        let closes = match next.event {
            PlatformEvent::CloseRequested => true,
            _ => false,
        };
        proof {
            if closes {
                assert(events@[index as int].event is CloseRequested);
            }
            assert(close_requested(events@, index as int + 1) == (close_requested(
                events@,
                index as int,
            ) || closes));
        }
        exit = exit || closes;
        index = index + 1;
    }
    exit
}

} // verus!
