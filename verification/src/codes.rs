//! Numeric values of the native interface, and the two tests that the native
//! bindings define on raw result values.

use vstd::prelude::*;

verus! {

/// Window message: the window is being destroyed.
pub const WM_DESTROY: u32 = 0x0002;

/// Window message: the message loop is asked to end.
pub const WM_QUIT: u32 = 0x0012;

/// Class style: redraw the whole window when its width changes.
pub const CS_HREDRAW: u32 = 0x0002;

/// Class style: redraw the whole window when its height changes.
pub const CS_VREDRAW: u32 = 0x0001;

/// Window style of an overlapped window with caption, system menu, sizing
/// border and both caption buttons.
pub const WS_OVERLAPPEDWINDOW: u32 = 0x00CF_0000;

/// Resource identifier of the standard arrow cursor.
pub const IDC_ARROW: u16 = 32512;

/// Show command: activate the window and show it at its current size.
pub const SW_SHOW: i32 = 5;

/// Peek option: take the message out of the queue.
pub const PM_REMOVE: u32 = 0x0001;

/// Direct3D feature level 12.1.
pub const D3D_FEATURE_LEVEL_12_1: i32 = 0xc100;

/// Command list type for command buffers that the GPU executes directly.
pub const D3D12_COMMAND_LIST_TYPE_DIRECT: i32 = 0;

/// Descriptor heap type for render-target views.
pub const D3D12_DESCRIPTOR_HEAP_TYPE_RTV: i32 = 2;

/// Pixel format: four 8-bit unsigned-normalized channels, RGBA.
pub const DXGI_FORMAT_R8G8B8A8_UNORM: i32 = 28;

/// Buffer usage: the back buffer is a render-target output.
pub const DXGI_USAGE_RENDER_TARGET_OUTPUT: u32 = 0x20;

/// Swap effect: flip presentation, back-buffer contents discarded.
pub const DXGI_SWAP_EFFECT_FLIP_DISCARD: i32 = 4;

/// Number of back buffers of the swap chain, and so of render-target views.
pub const BUFFER_COUNT: u32 = 2;

/// Whether a raw `HRESULT` is a success code: it is one unless it is
/// negative.
pub open spec fn succeeded(code: i32) -> bool {
    code >= 0
}

/// Whether a raw Win32 `BOOL` stands for true: every value but zero does.
pub open spec fn is_true(flag: i32) -> bool {
    flag != 0
}

/// Calls `windows::core::HRESULT::is_ok` on the given raw code. Trusted, not
/// proved: the method answers true exactly for the codes that are not
/// negative.
#[verifier::external_body]
pub(crate) fn hresult_is_ok(code: i32) -> (ok: bool)
    ensures
        ok == succeeded(code),
{
    windows::core::HRESULT(code).is_ok()
}

/// Calls `windows::Win32::Foundation::BOOL::as_bool` on the given raw value.
/// Trusted, not proved: the method answers true exactly for the values other
/// than zero.
#[verifier::external_body]
pub(crate) fn bool_as_bool(flag: i32) -> (yes: bool)
    ensures
        yes == is_true(flag),
{
    windows::Win32::Foundation::BOOL(flag).as_bool()
}

} // verus!
