//! Verified core of a set of GPU-backed video filter stages: shared GPU
//! execution context discovery and lifecycle, a mappable GPU buffer memory
//! kind, and the per-resolution compute filter pipeline.

use vstd::prelude::*;

pub mod backend;
pub mod context;
pub mod device_model;
pub mod discovery;
pub mod kernel;
pub mod pipeline;
pub mod poll;
pub mod wgpu_memory;

verus! {

/// How the owning context drives completion of outstanding GPU work.
#[derive(Debug, Clone, Copy, Default)]
pub enum PollType {
    /// A background thread blocks on "wait until queue work completes or
    /// timeout", resubmitting the wait; a timeout is routine, not an error.
    #[default]
    Threaded,
    /// A background thread calls a non-blocking poll in a spin loop.
    ThreadedBusy,
    /// No thread is spawned; the owning stage polls the device itself.
    Manual,
}

impl PollType {
    /// A context in either threaded mode owns a background poll thread;
    /// in manual mode it owns none.
    pub fn spawns_thread(&self) -> (r: bool)
        ensures
            r == !(self is Manual),
    {
        match self {
            PollType::Threaded => true,
            PollType::ThreadedBusy => true,
            PollType::Manual => false,
        }
    }
}

/// Errors fatal to stage startup: the platform could not provide a GPU
/// execution context.
#[derive(Debug, Clone, Copy, PartialEq, Eq, Structural)]
pub enum ContextError {
    /// No compatible physical adapter was available.
    AdapterUnavailable,
    /// An adapter was found but the logical device request failed.
    DeviceCreationFailed,
}

/// Recoverable per-operation errors of the GPU buffer memory kind.
#[derive(Debug, Clone, Copy, PartialEq, Eq, Structural)]
pub enum MemoryError {
    /// Creating the native GPU buffer failed.
    AllocationFailed,
    /// A map was requested over a range larger than the allocation.
    BufferTooSmall,
    /// A map was requested while another mapping view is still active.
    AlreadyMapped,
    /// The GPU did not signal map completion within the bounded wait.
    MapTimeout,
    /// The GPU signalled that the map request itself failed.
    MapFailed,
}

/// Recoverable per-frame errors of the compute filter pipeline; they fail
/// one frame, never the stage or the shared context.
#[derive(Debug, Clone, Copy, PartialEq, Eq, Structural)]
pub enum FrameError {
    /// No pipeline state exists for the negotiated resolution.
    NotNegotiated,
    /// Submitting or waiting for the frame's command sequence failed.
    SubmissionError,
}

} // verus!
