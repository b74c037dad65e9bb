//! Bring-up as a state machine: the stage says which native call is awaited,
//! an event says what the call gave, and the next stage follows from the two.

use vstd::prelude::*;
use crate::codes::{
    bool_as_bool, hresult_is_ok, is_true, succeeded, BUFFER_COUNT, D3D12_COMMAND_LIST_TYPE_DIRECT,
    D3D_FEATURE_LEVEL_12_1, PM_REMOVE, SW_SHOW, WM_QUIT,
};
use crate::game::Resources;
use crate::pipeline::{CommandQueueDesc, DescriptorHeapDesc, SwapChainDesc};
use crate::window::WindowDesc;

verus! {

/// What a native call gave back.
#[derive(Clone, Copy, Debug, PartialEq, Eq)]
pub enum Event {
    /// The window call returned this handle, null if no window was made.
    Window { hwnd: isize },
    /// An object was created; `handle` is the address of its interface.
    Created { handle: usize },
    /// The call failed with this result code.
    Failed { code: i32 },
    /// The feature-level probe of an adapter returned this raw result code.
    Probed { code: i32 },
    /// The descriptor heap was created; its descriptors start at `start` and
    /// lie `increment` bytes apart.
    Heap { start: usize, increment: u32 },
    /// A call whose result is not looked at has returned.
    Done,
    /// The message queue was peeked: the raw truth value of the call, and the
    /// identifier in the message structure.
    Peeked { available: i32, message: u32 },
}

/// The native call to make next, with its parameters.
#[derive(Clone, Copy, Debug, PartialEq, Eq)]
pub enum Step {
    /// Register the window class and create the window.
    CreateWindow { window: WindowDesc },
    /// Create the DXGI factory.
    CreateFactory,
    /// Ask the factory for the adapter at `index`.
    EnumAdapter { index: u32 },
    /// Ask whether a device of `feature_level` could be made on the adapter
    /// just enumerated, without making one.
    ProbeAdapter { feature_level: i32 },
    /// Create the device on the adapter that passed the probe.
    CreateDevice { feature_level: i32 },
    /// Create the command queue.
    CreateCommandQueue { queue: CommandQueueDesc },
    /// Create the command allocator.
    CreateCommandAllocator { list_type: i32 },
    /// Create the swap chain for the window.
    CreateSwapChain { chain: SwapChainDesc },
    /// Create the heap of render-target views, and read where its
    /// descriptors start and how far apart they lie.
    CreateDescriptorHeap { heap: DescriptorHeapDesc },
    /// Get back buffer `index` of the swap chain and create its view, in a
    /// heap that starts at `start` with descriptors `increment` apart.
    CreateRenderTarget { index: u32, start: usize, increment: u32 },
    /// Show the window.
    ShowWindow { command: i32 },
    /// Peek at the message queue of the thread, for messages of any window
    /// with an identifier from `filter_min` to `filter_max` (all of them
    /// where both are zero).
    PeekMessage { filter_min: u32, filter_max: u32, remove: u32 },
    /// Translate and dispatch the message just peeked.
    DispatchMessage,
    /// Nothing more: the game has run to its end.
    Finish,
    /// Nothing more: bring-up failed with this result code.
    Fail { code: i32 },
}

/// How far bring-up has come: each stage awaits the answer to one native
/// call and remembers the handles gathered so far.
#[derive(Clone, Copy, Debug, PartialEq, Eq)]
pub enum Stage {
    /// Awaits the window.
    Window,
    /// Awaits the factory.
    Factory { hwnd: isize },
    /// Awaits the adapter at `index`.
    Adapter { hwnd: isize, factory: usize, index: u32 },
    /// Awaits the probe of the adapter at `index`.
    Probe { hwnd: isize, factory: usize, index: u32, adapter: usize },
    /// Awaits the device.
    Device { hwnd: isize, factory: usize, adapter: usize },
    /// Awaits the command queue.
    CommandQueue { made: Resources },
    /// Awaits the command allocator.
    CommandAllocator { made: Resources },
    /// Awaits the swap chain.
    SwapChain { made: Resources },
    /// Awaits the descriptor heap.
    DescriptorHeap { made: Resources },
    /// Awaits the render target of buffer `index`.
    RenderTarget { made: Resources, start: usize, increment: u32, index: u32 },
    /// Awaits the showing of the window.
    Show { made: Resources },
    /// Awaits a peek at the message queue.
    Peek { made: Resources },
    /// Awaits the dispatch of the message with identifier `message`.
    Dispatch { made: Resources, message: u32 },
    /// The message loop has ended.
    Finished { made: Resources },
    /// A call failed with `code`.
    Failed { code: i32 },
}

impl Stage {
    /// Whether `event` is an answer that this stage can go on from. An
    /// adapter that cannot be enumerated ends the search with nothing to go
    /// on with, as does a failed probe of the last index there is; a stage
    /// that is over takes no event.
    pub open spec fn admits(self, event: Event) -> bool {
        match self {
            Stage::Window => event is Window,
            Stage::Adapter { .. } => event is Created,
            Stage::Probe { index, .. } => event matches Event::Probed { code } && (succeeded(code)
                || index < u32::MAX),
            Stage::DescriptorHeap { .. } => event is Heap || event is Failed,
            Stage::Show { .. } | Stage::Dispatch { .. } => event is Done,
            Stage::Peek { .. } => event is Peeked,
            Stage::Finished { .. } | Stage::Failed { .. } => false,
            _ => event is Created || event is Failed,
        }
    }

    /// The stage that follows this one on `event`. An event that the stage
    /// does not admit leaves it as it is.
    pub open spec fn after(self, event: Event) -> Stage {
        match (self, event) {
            (Stage::Window, Event::Window { hwnd }) => Stage::Factory { hwnd },
            (Stage::Factory { hwnd }, Event::Created { handle }) => Stage::Adapter {
                hwnd,
                factory: handle,
                index: 0,
            },
            (Stage::Adapter { hwnd, factory, index }, Event::Created { handle }) => Stage::Probe {
                hwnd,
                factory,
                index,
                adapter: handle,
            },
            (Stage::Probe { hwnd, factory, index, adapter }, Event::Probed { code }) => {
                if succeeded(code) {
                    Stage::Device { hwnd, factory, adapter }
                } else if index < u32::MAX {
                    Stage::Adapter { hwnd, factory, index: (index + 1) as u32 }
                } else {
                    self
                }
            },
            (Stage::Device { hwnd, factory, adapter }, Event::Created { handle }) => {
                Stage::CommandQueue { made: Resources { hwnd, factory, adapter, device: handle } }
            },
            (Stage::CommandQueue { made }, Event::Created { .. }) => Stage::CommandAllocator {
                made,
            },
            (Stage::CommandAllocator { made }, Event::Created { .. }) => Stage::SwapChain { made },
            (Stage::SwapChain { made }, Event::Created { .. }) => Stage::DescriptorHeap { made },
            (Stage::DescriptorHeap { made }, Event::Heap { start, increment }) => {
                Stage::RenderTarget { made, start, increment, index: 0 }
            },
            (Stage::RenderTarget { made, start, increment, index }, Event::Created { .. }) => {
                if index + 1 < BUFFER_COUNT {
                    Stage::RenderTarget { made, start, increment, index: (index + 1) as u32 }
                } else {
                    Stage::Show { made }
                }
            },
            (Stage::Show { made }, Event::Done) => Stage::Peek { made },
            (Stage::Peek { made }, Event::Peeked { available, message }) => {
                if is_true(available) {
                    Stage::Dispatch { made, message }
                } else {
                    Stage::Peek { made }
                }
            },
            (Stage::Dispatch { made, message }, Event::Done) => {
                if message == WM_QUIT {
                    Stage::Finished { made }
                } else {
                    Stage::Peek { made }
                }
            },
            (Stage::Factory { .. }, Event::Failed { code }) => Stage::Failed { code },
            (Stage::Device { .. }, Event::Failed { code }) => Stage::Failed { code },
            (Stage::CommandQueue { .. }, Event::Failed { code }) => Stage::Failed { code },
            (Stage::CommandAllocator { .. }, Event::Failed { code }) => Stage::Failed { code },
            (Stage::SwapChain { .. }, Event::Failed { code }) => Stage::Failed { code },
            (Stage::DescriptorHeap { .. }, Event::Failed { code }) => Stage::Failed { code },
            (Stage::RenderTarget { .. }, Event::Failed { code }) => Stage::Failed { code },
            _ => self,
        }
    }

    /// The call that this stage awaits the answer to, for a game of `width`
    /// by `height`.
    pub open spec fn request(self, width: u32, height: u32) -> Step {
        match self {
            Stage::Window => Step::CreateWindow { window: WindowDesc::of(width, height) },
            Stage::Factory { .. } => Step::CreateFactory,
            Stage::Adapter { index, .. } => Step::EnumAdapter { index },
            Stage::Probe { .. } => Step::ProbeAdapter { feature_level: D3D_FEATURE_LEVEL_12_1 },
            Stage::Device { .. } => Step::CreateDevice { feature_level: D3D_FEATURE_LEVEL_12_1 },
            Stage::CommandQueue { .. } => Step::CreateCommandQueue {
                queue: CommandQueueDesc::direct(),
            },
            Stage::CommandAllocator { .. } => Step::CreateCommandAllocator {
                list_type: D3D12_COMMAND_LIST_TYPE_DIRECT,
            },
            Stage::SwapChain { .. } => Step::CreateSwapChain {
                chain: SwapChainDesc::of(BUFFER_COUNT, width, height),
            },
            Stage::DescriptorHeap { .. } => Step::CreateDescriptorHeap {
                heap: DescriptorHeapDesc::of(BUFFER_COUNT),
            },
            Stage::RenderTarget { start, increment, index, .. } => Step::CreateRenderTarget {
                index,
                start,
                increment,
            },
            Stage::Show { .. } => Step::ShowWindow { command: SW_SHOW },
            Stage::Peek { .. } => Step::PeekMessage {
                filter_min: 0,
                filter_max: 0,
                remove: PM_REMOVE,
            },
            Stage::Dispatch { .. } => Step::DispatchMessage,
            Stage::Finished { .. } => Step::Finish,
            Stage::Failed { code } => Step::Fail { code },
        }
    }

    /// Place of the stage in the order of bring-up. The two stages of the
    /// adapter search share a place, as do the two of the message loop.
    pub open spec fn rank(self) -> nat {
        match self {
            Stage::Window => 0,
            Stage::Factory { .. } => 1,
            Stage::Adapter { .. } | Stage::Probe { .. } => 2,
            Stage::Device { .. } => 3,
            Stage::CommandQueue { .. } => 4,
            Stage::CommandAllocator { .. } => 5,
            Stage::SwapChain { .. } => 6,
            Stage::DescriptorHeap { .. } => 7,
            Stage::RenderTarget { .. } => 8,
            Stage::Show { .. } => 9,
            Stage::Peek { .. } | Stage::Dispatch { .. } => 10,
            Stage::Finished { .. } => 11,
            Stage::Failed { .. } => 12,
        }
    }

    /// The four handles together, once the device exists.
    pub open spec fn made(self) -> Option<Resources> {
        match self {
            Stage::CommandQueue { made }
            | Stage::CommandAllocator { made }
            | Stage::SwapChain { made }
            | Stage::DescriptorHeap { made }
            | Stage::RenderTarget { made, .. }
            | Stage::Show { made }
            | Stage::Peek { made }
            | Stage::Dispatch { made, .. }
            | Stage::Finished { made } => Some(made),
            _ => None,
        }
    }

    /// The window handle, once the window call has returned.
    pub open spec fn hwnd(self) -> Option<isize> {
        match self {
            Stage::Factory { hwnd }
            | Stage::Adapter { hwnd, .. }
            | Stage::Probe { hwnd, .. }
            | Stage::Device { hwnd, .. } => Some(hwnd),
            _ => match self.made() {
                Some(made) => Some(made.hwnd),
                None => None,
            },
        }
    }

    /// The factory, once it exists.
    pub open spec fn factory(self) -> Option<usize> {
        match self {
            Stage::Adapter { factory, .. }
            | Stage::Probe { factory, .. }
            | Stage::Device { factory, .. } => Some(factory),
            _ => match self.made() {
                Some(made) => Some(made.factory),
                None => None,
            },
        }
    }

    /// The adapter that passed the probe, once one has.
    pub open spec fn adapter(self) -> Option<usize> {
        match self {
            Stage::Device { adapter, .. } => Some(adapter),
            _ => match self.made() {
                Some(made) => Some(made.adapter),
                None => None,
            },
        }
    }

    /// The device, once it exists.
    pub open spec fn device(self) -> Option<usize> {
        match self.made() {
            Some(made) => Some(made.device),
            None => None,
        }
    }

    /// The resources that a game at this stage holds: those gathered, once
    /// the message loop has ended, and none before.
    pub open spec fn kept(self) -> Option<Resources> {
        match self {
            Stage::Finished { made } => Some(made),
            _ => None,
        }
    }

    /// Tells whether this stage admits `event`.
    pub fn accepts(&self, event: &Event) -> (ok: bool)
        ensures
            ok == self.admits(*event),
    {
        match self {
            Stage::Window => match event {
                Event::Window { .. } => true,
                _ => false,
            },
            Stage::Adapter { .. } => match event {
                Event::Created { .. } => true,
                _ => false,
            },
            Stage::Probe { index, .. } => match event {
                Event::Probed { code } => hresult_is_ok(*code) || *index < u32::MAX,
                _ => false,
            },
            Stage::DescriptorHeap { .. } => match event {
                Event::Heap { .. } => true,
                Event::Failed { .. } => true,
                _ => false,
            },
            Stage::Show { .. } => match event {
                Event::Done => true,
                _ => false,
            },
            Stage::Dispatch { .. } => match event {
                Event::Done => true,
                _ => false,
            },
            Stage::Peek { .. } => match event {
                Event::Peeked { .. } => true,
                _ => false,
            },
            Stage::Finished { .. } => false,
            Stage::Failed { .. } => false,
            _ => match event {
                Event::Created { .. } => true,
                Event::Failed { .. } => true,
                _ => false,
            },
        }
    }

    /// Goes on from this stage with the answer `event`.
    pub fn advance(self, event: Event) -> (next: Stage)
        requires
            self.admits(event),
        ensures
            next == self.after(event),
    {
        match self {
            Stage::Window => match event {
                Event::Window { hwnd } => Stage::Factory { hwnd },
                _ => self,
            },
            Stage::Factory { hwnd } => match event {
                Event::Created { handle } => Stage::Adapter { hwnd, factory: handle, index: 0 },
                Event::Failed { code } => Stage::Failed { code },
                _ => self,
            },
            Stage::Adapter { hwnd, factory, index } => match event {
                Event::Created { handle } => Stage::Probe { hwnd, factory, index, adapter: handle },
                _ => self,
            },
            Stage::Probe { hwnd, factory, index, adapter } => match event {
                Event::Probed { code } => {
                    if hresult_is_ok(code) {
                        Stage::Device { hwnd, factory, adapter }
                    } else {
                        Stage::Adapter { hwnd, factory, index: index + 1 }
                    }
                },
                _ => self,
            },
            Stage::Device { hwnd, factory, adapter } => match event {
                Event::Created { handle } => Stage::CommandQueue {
                    made: Resources { hwnd, factory, adapter, device: handle },
                },
                Event::Failed { code } => Stage::Failed { code },
                _ => self,
            },
            Stage::CommandQueue { made } => match event {
                Event::Created { .. } => Stage::CommandAllocator { made },
                Event::Failed { code } => Stage::Failed { code },
                _ => self,
            },
            Stage::CommandAllocator { made } => match event {
                Event::Created { .. } => Stage::SwapChain { made },
                Event::Failed { code } => Stage::Failed { code },
                _ => self,
            },
            Stage::SwapChain { made } => match event {
                Event::Created { .. } => Stage::DescriptorHeap { made },
                Event::Failed { code } => Stage::Failed { code },
                _ => self,
            },
            Stage::DescriptorHeap { made } => match event {
                Event::Heap { start, increment } => Stage::RenderTarget {
                    made,
                    start,
                    increment,
                    index: 0,
                },
                Event::Failed { code } => Stage::Failed { code },
                _ => self,
            },
            Stage::RenderTarget { made, start, increment, index } => match event {
                Event::Created { .. } => {
                    if index < BUFFER_COUNT - 1 {
                        Stage::RenderTarget { made, start, increment, index: index + 1 }
                    } else {
                        Stage::Show { made }
                    }
                },
                Event::Failed { code } => Stage::Failed { code },
                _ => self,
            },
            Stage::Show { made } => match event {
                Event::Done => Stage::Peek { made },
                _ => self,
            },
            Stage::Peek { made } => match event {
                Event::Peeked { available, message } => {
                    if bool_as_bool(available) {
                        Stage::Dispatch { made, message }
                    } else {
                        Stage::Peek { made }
                    }
                },
                _ => self,
            },
            Stage::Dispatch { made, message } => match event {
                Event::Done => {
                    if message == WM_QUIT {
                        Stage::Finished { made }
                    } else {
                        Stage::Peek { made }
                    }
                },
                _ => self,
            },
            Stage::Finished { .. } => self,
            Stage::Failed { .. } => self,
        }
    }

    /// The resources that a game at this stage holds.
    pub fn resources(&self) -> (kept: Option<Resources>)
        ensures
            kept == self.kept(),
    {
        match self {
            Stage::Finished { made } => Some(*made),
            _ => None,
        }
    }

    /// The call to make at this stage, for a game of `width` by `height`.
    pub fn step(&self, width: u32, height: u32) -> (step: Step)
        ensures
            step == self.request(width, height),
    {
        match self {
            Stage::Window => Step::CreateWindow { window: WindowDesc::new(width, height) },
            Stage::Factory { .. } => Step::CreateFactory,
            Stage::Adapter { index, .. } => Step::EnumAdapter { index: *index },
            Stage::Probe { .. } => Step::ProbeAdapter { feature_level: D3D_FEATURE_LEVEL_12_1 },
            Stage::Device { .. } => Step::CreateDevice { feature_level: D3D_FEATURE_LEVEL_12_1 },
            Stage::CommandQueue { .. } => Step::CreateCommandQueue { queue: CommandQueueDesc::new() },
            Stage::CommandAllocator { .. } => Step::CreateCommandAllocator {
                list_type: D3D12_COMMAND_LIST_TYPE_DIRECT,
            },
            Stage::SwapChain { .. } => Step::CreateSwapChain {
                chain: SwapChainDesc::new(BUFFER_COUNT, width, height),
            },
            Stage::DescriptorHeap { .. } => Step::CreateDescriptorHeap {
                heap: DescriptorHeapDesc::new(BUFFER_COUNT),
            },
            Stage::RenderTarget { start, increment, index, .. } => Step::CreateRenderTarget {
                index: *index,
                start: *start,
                increment: *increment,
            },
            Stage::Show { .. } => Step::ShowWindow { command: SW_SHOW },
            Stage::Peek { .. } => Step::PeekMessage {
                filter_min: 0,
                filter_max: 0,
                remove: PM_REMOVE,
            },
            Stage::Dispatch { .. } => Step::DispatchMessage,
            Stage::Finished { .. } => Step::Finish,
            Stage::Failed { code } => Step::Fail { code: *code },
        }
    }
}

} // verus!
