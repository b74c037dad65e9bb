//! The presentation pipeline: the descriptions that its objects are created
//! from, and where each render-target view lies in the descriptor heap.

use vstd::prelude::*;
use crate::codes::{
    D3D12_COMMAND_LIST_TYPE_DIRECT, D3D12_DESCRIPTOR_HEAP_TYPE_RTV, DXGI_FORMAT_R8G8B8A8_UNORM,
    DXGI_SWAP_EFFECT_FLIP_DISCARD, DXGI_USAGE_RENDER_TARGET_OUTPUT,
};

verus! {

/// Description of a command queue.
#[derive(Clone, Copy, Debug, PartialEq, Eq)]
pub struct CommandQueueDesc {
    /// Type of the command lists that the queue executes.
    pub list_type: i32,
    /// Priority of the queue.
    pub priority: i32,
    /// Option flags.
    pub flags: i32,
    /// Mask of the GPU nodes that the queue serves.
    pub node_mask: u32,
}

/// Description of a swap chain made for a window.
#[derive(Clone, Copy, Debug, PartialEq, Eq)]
pub struct SwapChainDesc {
    /// Width of the back buffers.
    pub width: u32,
    /// Height of the back buffers.
    pub height: u32,
    /// Pixel format of the back buffers.
    pub format: i32,
    /// Whether the back buffers are stereo.
    pub stereo: bool,
    /// Samples per pixel.
    pub sample_count: u32,
    /// Quality level of the sampling.
    pub sample_quality: u32,
    /// How the back buffers are used.
    pub buffer_usage: u32,
    /// Number of back buffers.
    pub buffer_count: u32,
    /// How a back buffer is fitted to the target.
    pub scaling: i32,
    /// What happens to a back buffer when it is presented.
    pub swap_effect: i32,
    /// How the alpha channel is read.
    pub alpha_mode: i32,
    /// Option flags.
    pub flags: u32,
}

/// Description of a descriptor heap.
#[derive(Clone, Copy, Debug, PartialEq, Eq)]
pub struct DescriptorHeapDesc {
    /// Type of the descriptors in the heap.
    pub heap_type: i32,
    /// Number of descriptors in the heap.
    pub descriptor_count: u32,
    /// Option flags.
    pub flags: i32,
    /// Mask of the GPU nodes that the heap serves.
    pub node_mask: u32,
}

impl CommandQueueDesc {
    /// The queue of the game: direct command lists, everything else at its
    /// zero default.
    pub open spec fn direct() -> CommandQueueDesc {
        CommandQueueDesc {
            list_type: D3D12_COMMAND_LIST_TYPE_DIRECT,
            priority: 0,
            flags: 0,
            node_mask: 0,
        }
    }

    /// Builds the description of the game's command queue.
    pub fn new() -> (desc: CommandQueueDesc)
        ensures
            desc == CommandQueueDesc::direct(),
    {
        CommandQueueDesc {
            list_type: D3D12_COMMAND_LIST_TYPE_DIRECT,
            priority: 0,
            flags: 0,
            node_mask: 0,
        }
    }
}

impl SwapChainDesc {
    /// The swap chain of the game: `buffer_count` RGBA8 back buffers of
    /// `width` by `height`, one sample per pixel, rendered to and then
    /// flipped with their contents discarded; everything else at its zero
    /// default.
    pub open spec fn of(buffer_count: u32, width: u32, height: u32) -> SwapChainDesc {
        SwapChainDesc {
            width,
            height,
            format: DXGI_FORMAT_R8G8B8A8_UNORM,
            stereo: false,
            sample_count: 1,
            sample_quality: 0,
            buffer_usage: DXGI_USAGE_RENDER_TARGET_OUTPUT,
            buffer_count,
            scaling: 0,
            swap_effect: DXGI_SWAP_EFFECT_FLIP_DISCARD,
            alpha_mode: 0,
            flags: 0,
        }
    }

    /// Builds the description of the game's swap chain.
    pub fn new(buffer_count: u32, width: u32, height: u32) -> (desc: SwapChainDesc)
        ensures
            desc == SwapChainDesc::of(buffer_count, width, height),
    {
        SwapChainDesc {
            width,
            height,
            format: DXGI_FORMAT_R8G8B8A8_UNORM,
            stereo: false,
            sample_count: 1,
            sample_quality: 0,
            buffer_usage: DXGI_USAGE_RENDER_TARGET_OUTPUT,
            buffer_count,
            scaling: 0,
            swap_effect: DXGI_SWAP_EFFECT_FLIP_DISCARD,
            alpha_mode: 0,
            flags: 0,
        }
    }
}

impl DescriptorHeapDesc {
    /// The heap of the game: `buffer_count` render-target views, everything
    /// else at its zero default.
    pub open spec fn of(buffer_count: u32) -> DescriptorHeapDesc {
        DescriptorHeapDesc {
            heap_type: D3D12_DESCRIPTOR_HEAP_TYPE_RTV,
            descriptor_count: buffer_count,
            flags: 0,
            node_mask: 0,
        }
    }

    /// Builds the description of the game's render-target view heap.
    pub fn new(buffer_count: u32) -> (desc: DescriptorHeapDesc)
        ensures
            desc == DescriptorHeapDesc::of(buffer_count),
    {
        DescriptorHeapDesc {
            heap_type: D3D12_DESCRIPTOR_HEAP_TYPE_RTV,
            descriptor_count: buffer_count,
            flags: 0,
            node_mask: 0,
        }
    }
}

/// Distance in bytes from the start of the heap to the view of buffer
/// `index`, for descriptors `increment` bytes apart.
pub open spec fn view_offset(increment: u32, index: u32) -> int {
    increment * index
}

/// Address of the view of buffer `index` in a heap that starts at `start`.
pub open spec fn view_address(start: usize, increment: u32, index: u32) -> int {
    start + view_offset(increment, index)
}

/// Whether the view of buffer `index` can be addressed: its offset fits in
/// 32 bits and its address in a machine word.
pub open spec fn view_addressable(start: usize, increment: u32, index: u32) -> bool {
    &&& view_offset(increment, index) <= u32::MAX
    &&& view_address(start, increment, index) <= usize::MAX
}

/// Computes the CPU descriptor handle of the render-target view of buffer
/// `index`: the start of the heap plus `index` increments. Gives `None`
/// exactly when the offset or the address overflows.
pub fn render_target_handle(start: usize, increment: u32, index: u32) -> (handle: Option<usize>)
    ensures
        view_addressable(start, increment, index) ==> handle == Some(
            view_address(start, increment, index) as usize,
        ),
        !view_addressable(start, increment, index) ==> handle.is_none(),
{
    match increment.checked_mul(index) {
        Some(offset) => start.checked_add(offset as usize),
        None => None,
    }
}

/// Views lie in the heap in the order of their buffers: the first at the
/// start, each next one exactly one increment further.
pub proof fn lemma_views_are_laid_out_in_order(start: usize, increment: u32, index: u32)
    requires
        index < u32::MAX,
    ensures
        view_address(start, increment, 0) == start,
        view_address(start, increment, (index + 1) as u32) == view_address(start, increment, index)
            + increment,
        view_addressable(start, increment, (index + 1) as u32) ==> view_addressable(
            start,
            increment,
            index,
        ),
{
    assert(increment * (index + 1) == increment * index + increment) by (nonlinear_arith);
    assert(0 <= increment * index) by (nonlinear_arith);
}

} // verus!
