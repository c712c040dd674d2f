//! The shared GPU execution context: one exclusively-owned device handle
//! and one command-submission queue handle, set exactly once at
//! construction and never mutated afterward, plus the poll mode under which
//! the owner drives completion of outstanding GPU work.
//!
//! Creation collapses the platform's asynchronous adapter and device
//! negotiation into blocking calls on the caller's thread; a failure there
//! is fatal to the constructing call and surfaces as `AdapterUnavailable`
//! or `DeviceCreationFailed`, never as a context that later panics:
//! `device()` and `queue()` are total. `wrap` adopts externally created
//! handles under the same polling contract. The background poll thread
//! itself is the host's to spawn (see `crate::poll` for its decisions),
//! since it is plain thread plumbing around one `poll_once`/`poll_wait`
//! call per iteration.

use crate::ContextError;
use crate::PollType;
use crate::backend::BackendSelection;
use crate::poll::PollOutcome;
use vstd::prelude::*;

verus! {

#[verifier::external_type_specification]
#[verifier::external_body]
pub struct ExInstance(wgpu::Instance);

#[verifier::external_type_specification]
#[verifier::external_body]
pub struct ExAdapter(wgpu::Adapter);

#[verifier::external_type_specification]
#[verifier::external_body]
pub struct ExDevice(wgpu::Device);

#[verifier::external_type_specification]
#[verifier::external_body]
pub struct ExQueue(wgpu::Queue);

#[verifier::external_type_specification]
#[verifier::external_body]
pub struct ExRequestAdapterError(wgpu::RequestAdapterError);

#[verifier::external_type_specification]
#[verifier::external_body]
pub struct ExRequestDeviceError(wgpu::RequestDeviceError);

/// What the stage demands of the physical adapter.
#[derive(Debug, Clone, Copy, PartialEq, Eq, Structural)]
pub struct AdapterRequirements {
    /// Prefer a high-performance adapter over a low-power one.
    pub high_performance: bool,
    /// Accept only a fallback (software) adapter.
    pub force_fallback: bool,
}

impl Default for AdapterRequirements {
    /// No power preference, any adapter.
    fn default() -> (r: Self)
        ensures
            !r.high_performance,
            !r.force_fallback,
    {
        AdapterRequirements { high_performance: false, force_fallback: false }
    }
}

/// What the stage demands of the logical device, beyond the platform's
/// downlevel defaults.
#[derive(Debug, Clone, Copy, PartialEq, Eq, Structural)]
pub struct DeviceRequirements {
    /// The largest buffer the stage will allocate, in bytes.
    pub max_buffer_size: u64,
}

impl Default for DeviceRequirements {
    /// No demand beyond the downlevel defaults.
    fn default() -> (r: Self)
        ensures
            r.max_buffer_size == 0,
    {
        DeviceRequirements { max_buffer_size: 0 }
    }
}

/// The downlevel default for the largest allowed buffer (256 MiB); a
/// device request never asks for less than this.
pub const BASE_MAX_BUFFER_SIZE: u64 = 268435456;

/// Relies on wgpu::Instance::new: creates the entry point to the selected
/// low-level backends.
#[verifier::external_body]
fn new_instance(backend: BackendSelection) -> wgpu::Instance {
    let backends = match backend {
        BackendSelection::All => wgpu::Backends::all(),
        BackendSelection::Vulkan => wgpu::Backends::VULKAN,
        BackendSelection::Metal => wgpu::Backends::METAL,
        BackendSelection::Dx12 => wgpu::Backends::DX12,
        BackendSelection::Gl => wgpu::Backends::GL,
    };
    let mut desc = wgpu::InstanceDescriptor::new_without_display_handle();
    desc.backends = backends;
    wgpu::Instance::new(desc)
}

/// Relies on wgpu::Instance::request_adapter: yields an adapter matching
/// the options, or an error when none does; the asynchronous negotiation is
/// collapsed into a blocking call on the caller's thread.
#[verifier::external_body]
fn request_adapter_blocking(instance: &wgpu::Instance, req: &AdapterRequirements) -> Result<
    wgpu::Adapter,
    wgpu::RequestAdapterError,
> {
    let options = wgpu::RequestAdapterOptions {
        power_preference: if req.high_performance {
            wgpu::PowerPreference::HighPerformance
        } else {
            wgpu::PowerPreference::None
        },
        force_fallback_adapter: req.force_fallback,
        compatible_surface: None,
        apply_limit_buckets: false,
    };
    pollster::block_on(instance.request_adapter(&options))
}

/// Relies on wgpu::Adapter::request_device: yields the device and queue, or
/// an error when the adapter cannot satisfy the requested limits; the
/// asynchronous negotiation is collapsed into a blocking call on the
/// caller's thread.
#[verifier::external_body]
fn request_device_blocking(adapter: &wgpu::Adapter, max_buffer_size: u64) -> Result<
    (wgpu::Device, wgpu::Queue),
    wgpu::RequestDeviceError,
> {
    let desc = wgpu::DeviceDescriptor {
        label: None,
        required_features: wgpu::Features::empty(),
        required_limits: wgpu::Limits {
            max_buffer_size,
            ..wgpu::Limits::downlevel_defaults()
        },
        experimental_features: wgpu::ExperimentalFeatures::disabled(),
        memory_hints: wgpu::MemoryHints::Performance,
        trace: wgpu::Trace::Off,
    };
    pollster::block_on(adapter.request_device(&desc))
}

/// Relies on wgpu::Device::poll with a non-blocking check: reports the
/// queue's state and fires ready mapping callbacks.
#[verifier::external_body]
fn poll_device_once(device: &wgpu::Device) -> PollOutcome {
    match device.poll(wgpu::PollType::Poll) {
        Ok(wgpu::PollStatus::QueueEmpty) => PollOutcome::QueueEmpty,
        Ok(wgpu::PollStatus::WaitSucceeded) => PollOutcome::WaitSucceeded,
        Ok(wgpu::PollStatus::Poll) => PollOutcome::Polled,
        Err(wgpu::PollError::Timeout) => PollOutcome::TimedOut,
        Err(_) => PollOutcome::Fault,
    }
}

/// Relies on wgpu::Device::poll with a bounded wait: blocks until queue
/// work completes or the timeout elapses; a timeout is reported, not an
/// error.
#[verifier::external_body]
fn poll_device_wait(device: &wgpu::Device, timeout_millis: u64) -> PollOutcome {
    let request = wgpu::PollType::Wait {
        submission_index: None,
        timeout: Some(std::time::Duration::from_millis(timeout_millis)),
    };
    match device.poll(request) {
        Ok(wgpu::PollStatus::QueueEmpty) => PollOutcome::QueueEmpty,
        Ok(wgpu::PollStatus::WaitSucceeded) => PollOutcome::WaitSucceeded,
        Ok(wgpu::PollStatus::Poll) => PollOutcome::Polled,
        Err(wgpu::PollError::Timeout) => PollOutcome::TimedOut,
        Err(_) => PollOutcome::Fault,
    }
}

/// Relies on wgpu::Device::clone: another shared handle to the same device.
#[verifier::external_body]
fn clone_device(device: &wgpu::Device) -> wgpu::Device {
    device.clone()
}

/// Relies on wgpu::Queue::clone: another shared handle to the same queue.
#[verifier::external_body]
fn clone_queue(queue: &wgpu::Queue) -> wgpu::Queue {
    queue.clone()
}

/// One shared GPU execution context: device, queue and poll mode, under an
/// identity by which stages and tokens name it. The owner keeps identities
/// unique (discovery hands out a fresh one per created context); every
/// shared reference and every allocation carries its context's identity.
pub struct WgpuContext {
    device: wgpu::Device,
    queue: wgpu::Queue,
    poll_type: PollType,
    context_id: u64,
    max_buffer_size: u64,
}

impl WgpuContext {
    /// How the context drives completion of outstanding GPU work.
    pub closed spec fn spec_poll_type(&self) -> PollType {
        self.poll_type
    }

    /// The identity by which stages and tokens name this context.
    pub closed spec fn spec_context_id(&self) -> u64 {
        self.context_id
    }

    /// The largest buffer the context's device allows, as negotiated at
    /// creation.
    pub closed spec fn spec_max_buffer_size(&self) -> u64 {
        self.max_buffer_size
    }

    /// Adopts externally created device and queue handles under the given
    /// polling contract.
    /// `max_buffer_size` is the largest buffer the adopted device allows.
    pub fn wrap(
        device: wgpu::Device,
        queue: wgpu::Queue,
        poll_type: PollType,
        context_id: u64,
        max_buffer_size: u64,
    ) -> (r: WgpuContext)
        ensures
            r.spec_poll_type() == poll_type,
            r.spec_context_id() == context_id,
            r.spec_max_buffer_size() == max_buffer_size,
    {
        WgpuContext { device, queue, poll_type, context_id, max_buffer_size }
    }

    /// Requests a compatible adapter and logical device synchronously and
    /// wraps them. Either every handle was obtained and the context is
    /// usable — `device()` and `queue()` are total — or the failing
    /// negotiation step is reported: `AdapterUnavailable` when no adapter
    /// matched, `DeviceCreationFailed` when the device request failed.
    pub fn new(
        backend: BackendSelection,
        adapter_req: &AdapterRequirements,
        device_req: &DeviceRequirements,
        poll_type: PollType,
        context_id: u64,
    ) -> (r: Result<WgpuContext, ContextError>)
        ensures
            r is Ok ==> r->Ok_0.spec_poll_type() == poll_type && r->Ok_0.spec_context_id()
                == context_id,
            r is Ok ==> r->Ok_0.spec_max_buffer_size() == (if device_req.max_buffer_size
                > BASE_MAX_BUFFER_SIZE {
                device_req.max_buffer_size
            } else {
                BASE_MAX_BUFFER_SIZE
            }),
            r is Err ==> r->Err_0 == ContextError::AdapterUnavailable || r->Err_0
                == ContextError::DeviceCreationFailed,
    {
        let instance = new_instance(backend);
        let adapter = match request_adapter_blocking(&instance, adapter_req) {
            Ok(a) => a,
            Err(_) => {
                return Err(ContextError::AdapterUnavailable);
            },
        };
        let cap = if device_req.max_buffer_size > BASE_MAX_BUFFER_SIZE {
            device_req.max_buffer_size
        } else {
            BASE_MAX_BUFFER_SIZE
        };
        match request_device_blocking(&adapter, cap) {
            Ok((device, queue)) => Ok(WgpuContext::wrap(device, queue, poll_type, context_id, cap)),
            Err(_) => Err(ContextError::DeviceCreationFailed),
        }
    }

    /// The wgpu device; set at construction, so always available.
    pub fn device(&self) -> &wgpu::Device {
        &self.device
    }

    /// The wgpu queue; set at construction, so always available.
    pub fn queue(&self) -> &wgpu::Queue {
        &self.queue
    }

    /// How completion of outstanding GPU work is driven for this context.
    pub fn poll_type(&self) -> (r: PollType)
        ensures
            r == self.spec_poll_type(),
    {
        self.poll_type
    }

    /// The identity by which stages and tokens name this context.
    pub fn context_id(&self) -> (r: u64)
        ensures
            r == self.spec_context_id(),
    {
        self.context_id
    }

    /// The largest buffer the context's device allows.
    pub fn max_buffer_size(&self) -> (r: u64)
        ensures
            r == self.spec_max_buffer_size(),
    {
        self.max_buffer_size
    }

    /// Another shared reference to the same context, for a stage or an
    /// allocation that co-owns it.
    pub fn clone_ref(&self) -> (r: WgpuContext)
        ensures
            r.spec_poll_type() == self.spec_poll_type(),
            r.spec_context_id() == self.spec_context_id(),
            r.spec_max_buffer_size() == self.spec_max_buffer_size(),
    {
        WgpuContext {
            device: clone_device(&self.device),
            queue: clone_queue(&self.queue),
            poll_type: self.poll_type,
            context_id: self.context_id,
            max_buffer_size: self.max_buffer_size,
        }
    }

    /// Wraps this context as a typed token for propagation between stages;
    /// the token carries the context's identity under the given type tag.
    pub fn as_token(&self, tag: String) -> (t: crate::discovery::ContextToken)
        ensures
            t.context_type == tag,
            t.ctx_id == self.spec_context_id(),
    {
        crate::discovery::ContextToken::new(tag, self.context_id)
    }

    /// The self-creation fallback of context discovery: requests a fresh
    /// context under the given identity and wraps it as a token of the
    /// given type, for the stage to keep and to announce to the pipeline so
    /// that later stages reuse it. A negotiation failure aborts the stage's
    /// startup with the failing step's error.
    pub fn create_own_context(
        backend: BackendSelection,
        adapter_req: &AdapterRequirements,
        device_req: &DeviceRequirements,
        poll_type: PollType,
        fresh_id: u64,
        tag: String,
    ) -> (r: Result<(WgpuContext, crate::discovery::ContextToken), ContextError>)
        ensures
            r is Ok ==> ({
                let (ctx, token) = r->Ok_0;
                &&& ctx.spec_poll_type() == poll_type
                &&& ctx.spec_context_id() == fresh_id
                &&& token.ctx_id == fresh_id
                &&& token.context_type == tag
            }),
            r is Err ==> r->Err_0 == ContextError::AdapterUnavailable || r->Err_0
                == ContextError::DeviceCreationFailed,
    {
        let ctx = match WgpuContext::new(backend, adapter_req, device_req, poll_type, fresh_id) {
            Ok(c) => c,
            Err(e) => {
                return Err(e);
            },
        };
        let token = ctx.as_token(tag);
        Ok((ctx, token))
    }

    /// One non-blocking device poll, for manual poll mode and for the
    /// poll loop's threaded-busy iterations.
    pub fn poll_once(&self) -> PollOutcome {
        poll_device_once(&self.device)
    }

    /// One bounded blocking device poll, for the poll loop's threaded-wait
    /// iterations; the timeout is routine, not an error.
    pub fn poll_wait(&self, timeout_millis: u64) -> PollOutcome {
        poll_device_wait(&self.device, timeout_millis)
    }
}

} // verus!
