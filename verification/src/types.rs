//! Plain value types shared by the controllers, the dispatcher and the raster
//! primitives.

use crate::color::Color;
use vstd::prelude::*;
use vstd::string::StringExecFns;

verus! {

/// Z-order group of the overlay window.
#[derive(Debug, Clone, Copy, PartialEq, Eq, Structural)]
pub enum WindowLevel {
    Normal,
    AlwaysOnTop,
    AlwaysOnBottom,
}

#[derive(Debug, Clone, Copy, PartialEq, Eq, Structural)]
pub struct WindowPosition {
    pub x: i32,
    pub y: i32,
}

#[derive(Debug, Clone, Copy, PartialEq, Eq, Structural)]
pub struct WindowSize {
    pub width: u32,
    pub height: u32,
}

/// End points, target dimensions and color of a line.
#[derive(Debug, Clone, Copy, PartialEq, Eq, Structural)]
pub struct LineParams {
    pub x1: u32,
    pub y1: u32,
    pub x2: u32,
    pub y2: u32,
    pub buffer_width: u32,
    pub buffer_height: u32,
    pub color: Color,
}

/// An image as row-major RGBA bytes.
#[derive(Debug, PartialEq, Eq)]
pub struct DecodedImage {
    pub data: Vec<u8>,
    pub width: u32,
    pub height: u32,
}

/// Mathematical content of a [`DecodedImage`].
pub struct DecodedImageView {
    pub data: Seq<u8>,
    pub width: u32,
    pub height: u32,
}

impl View for DecodedImage {
    type V = DecodedImageView;

    open spec fn view(&self) -> DecodedImageView {
        DecodedImageView { data: self.data@, width: self.width, height: self.height }
    }
}

impl Clone for DecodedImage {
    fn clone(&self) -> (copy: Self)
        ensures
            copy@ == self@,
    {
        DecodedImage { data: self.data.clone(), width: self.width, height: self.height }
    }
}

/// Lifecycle signals handed to the registered event callback.
#[derive(Debug, Clone, Copy, PartialEq, Eq, Structural)]
pub enum OverlayEvent {
    Resized,
    Moved,
    CloseRequested,
    Focused,
    Blurred,
    Minimized,
    Restored,
    MouseEnter,
    MouseLeave,
    Destroyed,
}

/// Why an operation was refused.
#[derive(Debug, Clone, PartialEq, Eq)]
pub enum OverlayError {
    /// The surface does not exist yet.
    NotInitialized,
    /// An argument does not fit the frame or the requested conversion.
    InvalidArgument(String),
    /// The platform refused or failed; the text carries its detail.
    PlatformFailure(String),
}

/// Message of an operation on a surface that does not exist yet.
pub open spec fn not_initialized_text() -> Seq<char> {
    "Window not initialized"@
}

impl OverlayError {
    /// The text of the error: a fixed one for a surface that does not exist
    /// yet, else the text that the error carries.
    pub open spec fn message_text(self) -> Seq<char> {
        match self {
            OverlayError::NotInitialized => not_initialized_text(),
            OverlayError::InvalidArgument(message) => message@,
            OverlayError::PlatformFailure(message) => message@,
        }
    }

    /// The text of the error.
    pub fn message(&self) -> (text: String)
        ensures
            text@ == self.message_text(),
    {
        match self {
            OverlayError::NotInitialized => String::from_str("Window not initialized"),
            OverlayError::InvalidArgument(message) => message.clone(),
            OverlayError::PlatformFailure(message) => message.clone(),
        }
    }
}

/// Requested properties of the overlay window; an absent field takes its
/// default when the window is created.
#[derive(Debug, Clone, PartialEq, Eq)]
pub struct WindowConfig {
    pub width: Option<u32>,
    pub height: Option<u32>,
    pub x: Option<i32>,
    pub y: Option<i32>,
    pub title: Option<String>,
    pub transparent: Option<bool>,
    pub decorations: Option<bool>,
    pub always_on_top: Option<bool>,
    pub resizable: Option<bool>,
    pub fullscreen: Option<bool>,
    pub maximized: Option<bool>,
    pub minimized: Option<bool>,
    pub render_when_occluded: Option<bool>,
}

/// Mathematical content of a [`WindowConfig`].
pub struct WindowConfigView {
    pub width: Option<u32>,
    pub height: Option<u32>,
    pub x: Option<i32>,
    pub y: Option<i32>,
    pub title: Option<Seq<char>>,
    pub transparent: Option<bool>,
    pub decorations: Option<bool>,
    pub always_on_top: Option<bool>,
    pub resizable: Option<bool>,
    pub fullscreen: Option<bool>,
    pub maximized: Option<bool>,
    pub minimized: Option<bool>,
    pub render_when_occluded: Option<bool>,
}

impl WindowConfigView {
    /// The configuration in which every field is absent.
    pub open spec fn empty() -> WindowConfigView {
        WindowConfigView {
            width: None,
            height: None,
            x: None,
            y: None,
            title: None,
            transparent: None,
            decorations: None,
            always_on_top: None,
            resizable: None,
            fullscreen: None,
            maximized: None,
            minimized: None,
            render_when_occluded: None,
        }
    }
}

impl View for WindowConfig {
    type V = WindowConfigView;

    open spec fn view(&self) -> WindowConfigView {
        WindowConfigView {
            width: self.width,
            height: self.height,
            x: self.x,
            y: self.y,
            title: match self.title {
                Some(t) => Some(t@),
                None => None,
            },
            transparent: self.transparent,
            decorations: self.decorations,
            always_on_top: self.always_on_top,
            resizable: self.resizable,
            fullscreen: self.fullscreen,
            maximized: self.maximized,
            minimized: self.minimized,
            render_when_occluded: self.render_when_occluded,
        }
    }
}

impl Default for WindowConfig {
    fn default() -> (config: WindowConfig)
        ensures
            config@ == WindowConfigView::empty(),
    {
        WindowConfig {
            width: None,
            height: None,
            x: None,
            y: None,
            title: None,
            transparent: None,
            decorations: None,
            always_on_top: None,
            resizable: None,
            fullscreen: None,
            maximized: None,
            minimized: None,
            render_when_occluded: None,
        }
    }
}

pub fn create_position(x: i32, y: i32) -> (position: WindowPosition)
    ensures
        position == (WindowPosition { x, y }),
{
    WindowPosition { x, y }
}

pub fn create_size(width: u32, height: u32) -> (size: WindowSize)
    ensures
        size == (WindowSize { width, height }),
{
    WindowSize { width, height }
}

} // verus!
