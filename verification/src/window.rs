//! The window: what it is created with, and what its window procedure does
//! with a message.

use vstd::prelude::*;
use crate::codes::{CS_HREDRAW, CS_VREDRAW, IDC_ARROW, WM_DESTROY, WS_OVERLAPPEDWINDOW};

verus! {

/// Name of the window class that the game registers and creates its window
/// from.
pub const CLASS_NAME: &'static str = "Barebone-Game";

/// Exit code that the window procedure posts when the window is destroyed.
pub const EXIT_CODE: i32 = 0;

/// The parameters of the window class and of the window made from it.
#[derive(Clone, Copy, Debug, PartialEq, Eq)]
pub struct WindowDesc {
    /// Style bits of the window class.
    pub class_style: u32,
    /// Resource identifier of the system cursor of the class.
    pub cursor: u16,
    /// Extended style bits of the window.
    pub ex_style: u32,
    /// Style bits of the window.
    pub style: u32,
    /// Horizontal position of the window.
    pub x: i32,
    /// Vertical position of the window.
    pub y: i32,
    /// Width handed to the windowing system.
    pub width: i32,
    /// Height handed to the windowing system.
    pub height: i32,
}

/// The signed value that the windowing system receives for an unsigned
/// extent: the same number while it fits, and the number less 2^32 above
/// that.
pub open spec fn extent_of(pixels: u32) -> int {
    if pixels <= i32::MAX {
        pixels as int
    } else {
        pixels - 0x1_0000_0000
    }
}

/// Converts an extent in pixels to the signed integer that the windowing
/// system takes, keeping the bit pattern.
pub fn window_extent(pixels: u32) -> (extent: i32)
    ensures
        extent == extent_of(pixels),
{
    if pixels <= 0x7fff_ffff {
        pixels as i32
    } else {
        ((pixels - 0x8000_0000) as i32) + i32::MIN
    }
}

impl WindowDesc {
    /// The description of the game's window for a client area request of
    /// `width` by `height`: a class that redraws on any change of size and
    /// shows the arrow cursor, and an overlapped window at the origin.
    pub open spec fn of(width: u32, height: u32) -> WindowDesc {
        WindowDesc {
            class_style: 0x0003,
            cursor: IDC_ARROW,
            ex_style: 0,
            style: WS_OVERLAPPEDWINDOW,
            x: 0,
            y: 0,
            width: extent_of(width) as i32,
            height: extent_of(height) as i32,
        }
    }

    /// Builds the description of the game's window.
    pub fn new(width: u32, height: u32) -> (desc: WindowDesc)
        ensures
            desc == WindowDesc::of(width, height),
            desc.class_style == CS_HREDRAW | CS_VREDRAW,
    {
        let class_style: u32 = CS_HREDRAW | CS_VREDRAW;
        assert(class_style == 0x0003) by (bit_vector)
            requires
                class_style == 0x0002u32 | 0x0001u32,
        ;
        WindowDesc {
            class_style,
            cursor: IDC_ARROW,
            ex_style: 0,
            style: WS_OVERLAPPEDWINDOW,
            x: 0,
            y: 0,
            width: window_extent(width),
            height: window_extent(height),
        }
    }
}

/// What the window procedure does with a message before it hands the message
/// to the default procedure: the exit code to post a quit message with, if
/// any. Only the destruction of the window posts one.
pub open spec fn quit_posted_on(message: u32) -> Option<i32> {
    if message == WM_DESTROY {
        Some(EXIT_CODE)
    } else {
        None
    }
}

/// Decides whether the window procedure posts a quit message on `message`,
/// and with which exit code. Every message goes on to the default procedure
/// afterwards.
pub fn window_message(message: u32) -> (quit: Option<i32>)
    ensures
        quit == quit_posted_on(message),
{
    if message == WM_DESTROY {
        Some(EXIT_CODE)
    } else {
        None
    }
}

} // verus!
