//! The GPU-backed buffer memory kind over the real device.
//!
//! Each allocation owns one native wgpu buffer together with a shared
//! reference to its owning context, the prefix offset and logical size the
//! host's memory layer asked for, and its single mapping slot. The recorded
//! attributes mirror the native buffer by construction: the trusted
//! constructor creates the buffer with exactly the recorded size and the
//! usage chosen by `readonly` (copy-destination + map-read when read-only,
//! copy-source + map-write when writable), and every trusted operation
//! keeps the `mapped` slot equal to the native mapping state.
//!
//! Mapping blocks the calling thread on a single-use completion channel
//! until the GPU signals success or failure, or a bounded wait elapses
//! (`MapTimeout`); a second map without an intervening unmap fails with
//! `AlreadyMapped` and does not disturb the active mapping.

use crate::MemoryError;
use crate::context::WgpuContext;
use crate::device_model::AllocationParams;
use crate::device_model::MapMode;
use crate::poll::PollOutcome;
use vstd::prelude::*;

verus! {

#[verifier::external_type_specification]
#[verifier::external_body]
pub struct ExBuffer(wgpu::Buffer);

/// How long a map request may block before it fails with `MapTimeout`.
pub const MAP_TIMEOUT_MILLIS: u64 = 10000;

/// How a blocking map request ended.
enum MapWaitOutcome {
    /// The GPU signalled success; the buffer is mapped.
    Mapped,
    /// The GPU signalled that the map request failed.
    Failed,
    /// The bounded wait elapsed; the request was cancelled.
    TimedOut,
}

/// One GPU-resident allocation of the memory kind.
pub struct WgpuMemory {
    context: WgpuContext,
    buffer: wgpu::Buffer,
    size: u64,
    offset: u64,
    logical_size: u64,
    readonly: bool,
    mapped: bool,
}

/// The physical size of an allocation: prefix, logical bytes and padding,
/// rounded up to the 4-byte map granule, and at least one granule so the
/// native buffer is always mappable.
pub open spec fn physical_size(size: int, prefix: int, padding: int) -> int {
    let rounded = ((prefix + size + padding + 3) / 4) * 4;
    if rounded == 0 {
        4
    } else {
        rounded
    }
}

/// Whether the physical size computation stays within the machine limit.
pub open spec fn alloc_fits(size: int, prefix: int, padding: int) -> bool {
    prefix + size + padding + 3 <= usize::MAX
}

impl WgpuMemory {
    /// The allocation's physical capacity in bytes (the native buffer's
    /// size).
    pub closed spec fn spec_size(&self) -> u64 {
        self.size
    }

    /// The byte offset of the logical range (the requested prefix).
    pub closed spec fn spec_offset(&self) -> u64 {
        self.offset
    }

    /// The logical size requested at allocation.
    pub closed spec fn spec_logical_size(&self) -> u64 {
        self.logical_size
    }

    /// Whether the allocation is read-only (maps for read) or writable
    /// (maps for write).
    pub closed spec fn spec_readonly(&self) -> bool {
        self.readonly
    }

    /// Whether the allocation's single mapping slot is occupied.
    pub closed spec fn spec_mapped(&self) -> bool {
        self.mapped
    }

    /// The identity of the owning context.
    pub closed spec fn spec_context_id(&self) -> u64 {
        self.context.spec_context_id()
    }

    /// Every allocation is a whole positive number of map granules and
    /// holds its logical range.
    pub open spec fn wf(&self) -> bool {
        &&& self.spec_size() % 4 == 0
        &&& self.spec_size() > 0
        &&& self.spec_offset() + self.spec_logical_size() <= self.spec_size()
    }

    /// The error a map request gets, if any: a second concurrent map is
    /// refused, then a map beyond the allocated capacity, then a map whose
    /// mode contradicts the allocation's usage.
    pub open spec fn map_error(&self, size: int, mode: MapMode) -> Option<MemoryError> {
        if self.spec_mapped() {
            Some(MemoryError::AlreadyMapped)
        } else if size > self.spec_size() {
            Some(MemoryError::BufferTooSmall)
        } else if (mode is Read) != self.spec_readonly() {
            Some(MemoryError::MapFailed)
        } else {
            None
        }
    }

    /// Whether the allocation's capacity is mapped.
    pub fn is_mapped(&self) -> (r: bool)
        ensures
            r == self.spec_mapped(),
    {
        self.mapped
    }

    /// The allocation's physical capacity in bytes.
    pub fn size(&self) -> (r: u64)
        ensures
            r == self.spec_size(),
    {
        self.size
    }

    /// The byte offset of the logical range.
    pub fn offset(&self) -> (r: u64)
        ensures
            r == self.spec_offset(),
    {
        self.offset
    }

    /// The logical size requested at allocation.
    pub fn logical_size(&self) -> (r: u64)
        ensures
            r == self.spec_logical_size(),
    {
        self.logical_size
    }

    /// Whether the allocation is read-only.
    pub fn readonly(&self) -> (r: bool)
        ensures
            r == self.spec_readonly(),
    {
        self.readonly
    }

    /// The owning context.
    pub fn context(&self) -> (r: &WgpuContext)
        ensures
            r.spec_context_id() == self.spec_context_id(),
    {
        &self.context
    }

    /// Relies on wgpu::Buffer::map_async and wgpu::Device::poll: submits an
    /// asynchronous map request over the whole buffer, then blocks on a
    /// single-use completion channel while the device poll drives the
    /// request; on timeout the request is cancelled by a native unmap, so
    /// the buffer stays unmapped.
    #[verifier::external_body]
    fn map_blocking(&mut self, read: bool) -> (r: MapWaitOutcome)
        requires
            !old(self).spec_mapped(),
            old(self).wf(),
            read == old(self).spec_readonly(),
        ensures
            final(self).spec_size() == old(self).spec_size(),
            final(self).spec_offset() == old(self).spec_offset(),
            final(self).spec_logical_size() == old(self).spec_logical_size(),
            final(self).spec_readonly() == old(self).spec_readonly(),
            final(self).spec_context_id() == old(self).spec_context_id(),
            final(self).spec_mapped() == (r is Mapped),
    {
        let mode = if read { wgpu::MapMode::Read } else { wgpu::MapMode::Write };
        let (tx, rx) = std::sync::mpsc::sync_channel(1);
        self.buffer.map_async(mode, .., move |res| { tx.send(res).ok(); });
        let timeout = Some(std::time::Duration::from_millis(MAP_TIMEOUT_MILLIS));
        let _ = self.context.device().poll(wgpu::PollType::Wait { submission_index: None, timeout });
        match rx.try_recv() {
            Ok(Ok(())) => { self.mapped = true; MapWaitOutcome::Mapped },
            Ok(Err(_)) => MapWaitOutcome::Failed,
            Err(_) => { self.buffer.unmap(); MapWaitOutcome::TimedOut },
        }
    }

    /// Requests a synchronous map of `[0, size)` in the given mode. A
    /// second map while one is active fails with `AlreadyMapped` and does
    /// not disturb the active mapping; a map beyond the capacity fails with
    /// `BufferTooSmall`; a mode against the allocation's usage fails with
    /// `MapFailed`. Otherwise the call blocks until the GPU signals
    /// completion: success occupies the mapping slot, a GPU-side failure is
    /// `MapFailed` and an elapsed bounded wait is `MapTimeout`, both
    /// leaving the allocation unmapped.
    pub fn map(&mut self, size: u64, mode: MapMode) -> (r: Result<(), MemoryError>)
        requires
            old(self).wf(),
        ensures
            final(self).wf(),
            final(self).spec_size() == old(self).spec_size(),
            final(self).spec_offset() == old(self).spec_offset(),
            final(self).spec_logical_size() == old(self).spec_logical_size(),
            final(self).spec_readonly() == old(self).spec_readonly(),
            final(self).spec_context_id() == old(self).spec_context_id(),
            match old(self).map_error(size as int, mode) {
                Some(e) => r == Err::<(), MemoryError>(e) && *final(self) == *old(self),
                None => {
                    &&& (r is Ok <==> final(self).spec_mapped())
                    &&& (r is Err ==> r == Err::<(), MemoryError>(MemoryError::MapFailed) || r
                        == Err::<(), MemoryError>(MemoryError::MapTimeout))
                },
            },
    {
        if self.mapped {
            return Err(MemoryError::AlreadyMapped);
        }
        if size > self.size {
            return Err(MemoryError::BufferTooSmall);
        }
        let read = match mode {
            MapMode::Read => true,
            MapMode::Write => false,
        };
        if read != self.readonly {
            return Err(MemoryError::MapFailed);
        }
        match self.map_blocking(read) {
            MapWaitOutcome::Mapped => Ok(()),
            MapWaitOutcome::Failed => Err(MemoryError::MapFailed),
            MapWaitOutcome::TimedOut => Err(MemoryError::MapTimeout),
        }
    }

    /// Maps `[0, size)` for reading; see `map`.
    pub fn map_read(&mut self, size: u64) -> (r: Result<(), MemoryError>)
        requires
            old(self).wf(),
        ensures
            final(self).wf(),
            final(self).spec_size() == old(self).spec_size(),
            final(self).spec_offset() == old(self).spec_offset(),
            final(self).spec_logical_size() == old(self).spec_logical_size(),
            final(self).spec_readonly() == old(self).spec_readonly(),
            final(self).spec_context_id() == old(self).spec_context_id(),
            match old(self).map_error(size as int, MapMode::Read) {
                Some(e) => r == Err::<(), MemoryError>(e) && *final(self) == *old(self),
                None => {
                    &&& (r is Ok <==> final(self).spec_mapped())
                    &&& (r is Err ==> r == Err::<(), MemoryError>(MemoryError::MapFailed) || r
                        == Err::<(), MemoryError>(MemoryError::MapTimeout))
                },
            },
    {
        self.map(size, MapMode::Read)
    }

    /// Maps `[0, size)` for writing; see `map`.
    pub fn map_write(&mut self, size: u64) -> (r: Result<(), MemoryError>)
        requires
            old(self).wf(),
        ensures
            final(self).wf(),
            final(self).spec_size() == old(self).spec_size(),
            final(self).spec_offset() == old(self).spec_offset(),
            final(self).spec_logical_size() == old(self).spec_logical_size(),
            final(self).spec_readonly() == old(self).spec_readonly(),
            final(self).spec_context_id() == old(self).spec_context_id(),
            match old(self).map_error(size as int, MapMode::Write) {
                Some(e) => r == Err::<(), MemoryError>(e) && *final(self) == *old(self),
                None => {
                    &&& (r is Ok <==> final(self).spec_mapped())
                    &&& (r is Err ==> r == Err::<(), MemoryError>(MemoryError::MapFailed) || r
                        == Err::<(), MemoryError>(MemoryError::MapTimeout))
                },
            },
    {
        self.map(size, MapMode::Write)
    }

    /// Relies on wgpu::Buffer::get_mapped_range_mut: copies `bytes` to the
    /// start of the mapped range.
    #[verifier::external_body]
    fn write_bytes_raw(&self, bytes: &Vec<u8>)
        requires
            self.spec_mapped(),
            !self.spec_readonly(),
            bytes@.len() <= self.spec_size(),
            self.wf(),
    {
        let mut view = self.buffer.get_mapped_range_mut(..).unwrap();
        view.slice(..bytes.len()).copy_from_slice(bytes.as_slice());
    }

    /// Relies on wgpu::Buffer::get_mapped_range: reads the first `n` bytes
    /// of the mapped range.
    #[verifier::external_body]
    fn read_bytes_raw(&self, n: u64) -> (r: Vec<u8>)
        requires
            self.spec_mapped(),
            self.spec_readonly(),
            n <= self.spec_size(),
            self.wf(),
        ensures
            r@.len() == n,
    {
        let view = self.buffer.get_mapped_range(..).unwrap();
        view[..n as usize].to_vec()
    }

    /// Writes `bytes` through the active write mapping into the start of
    /// the allocation. Fails with `MapFailed` when no write mapping is
    /// active, with `BufferTooSmall` when the bytes exceed the capacity.
    pub fn write_mapped(&self, bytes: &Vec<u8>) -> (r: Result<(), MemoryError>)
        requires
            self.wf(),
        ensures
            !(self.spec_mapped() && !self.spec_readonly()) ==> r == Err::<(), MemoryError>(
                MemoryError::MapFailed,
            ),
            self.spec_mapped() && !self.spec_readonly() && bytes@.len() > self.spec_size() ==> r
                == Err::<(), MemoryError>(MemoryError::BufferTooSmall),
            self.spec_mapped() && !self.spec_readonly() && bytes@.len() <= self.spec_size() ==> r
                is Ok,
    {
        if !self.mapped || self.readonly {
            return Err(MemoryError::MapFailed);
        }
        if bytes.len() as u64 > self.size {
            return Err(MemoryError::BufferTooSmall);
        }
        self.write_bytes_raw(bytes);
        Ok(())
    }

    /// Reads the first `n` bytes of the allocation through the active read
    /// mapping. Fails with `MapFailed` when no read mapping is active, with
    /// `BufferTooSmall` when `n` exceeds the capacity.
    pub fn read_mapped(&self, n: u64) -> (r: Result<Vec<u8>, MemoryError>)
        requires
            self.wf(),
        ensures
            !(self.spec_mapped() && self.spec_readonly()) ==> r == Err::<Vec<u8>, MemoryError>(
                MemoryError::MapFailed,
            ),
            self.spec_mapped() && self.spec_readonly() && n > self.spec_size() ==> r == Err::<
                Vec<u8>,
                MemoryError,
            >(MemoryError::BufferTooSmall),
            self.spec_mapped() && self.spec_readonly() && n <= self.spec_size() ==> r is Ok
                && r->Ok_0@.len() == n,
    {
        if !self.mapped || !self.readonly {
            return Err(MemoryError::MapFailed);
        }
        if n > self.size {
            return Err(MemoryError::BufferTooSmall);
        }
        Ok(self.read_bytes_raw(n))
    }

    /// Relies on wgpu::Buffer::unmap and a non-blocking wgpu::Device::poll:
    /// invalidates the mapping and nudges reclamation of resources tied to
    /// the just-completed unmap.
    #[verifier::external_body]
    fn unmap_raw(&mut self)
        requires
            old(self).spec_mapped(),
        ensures
            final(self).spec_size() == old(self).spec_size(),
            final(self).spec_offset() == old(self).spec_offset(),
            final(self).spec_logical_size() == old(self).spec_logical_size(),
            final(self).spec_readonly() == old(self).spec_readonly(),
            final(self).spec_context_id() == old(self).spec_context_id(),
            !final(self).spec_mapped(),
    {
        self.buffer.unmap();
        self.mapped = false;
        let _ = self.context.device().poll(wgpu::PollType::Poll);
    }

    /// Drops the active mapping view, invalidating it, and triggers one
    /// non-blocking device poll so tied resources are reclaimed promptly.
    /// Idempotent: unmapping an unmapped allocation does nothing.
    pub fn unmap(&mut self)
        requires
            old(self).wf(),
        ensures
            final(self).wf(),
            final(self).spec_size() == old(self).spec_size(),
            final(self).spec_offset() == old(self).spec_offset(),
            final(self).spec_logical_size() == old(self).spec_logical_size(),
            final(self).spec_readonly() == old(self).spec_readonly(),
            final(self).spec_context_id() == old(self).spec_context_id(),
            !final(self).spec_mapped(),
    {
        if self.mapped {
            self.unmap_raw();
        }
    }
}

/// Relies on wgpu::Device::create_buffer: a fresh unmapped native buffer of
/// exactly `size` bytes, copy-destination + map-read when read-only,
/// copy-source + map-write when writable, co-owning the given context. The
/// size stays within the limit the device was created with, so creation
/// does not fault the device.
#[verifier::external_body]
fn create_memory(
    context: WgpuContext,
    size: u64,
    offset: u64,
    logical_size: u64,
    readonly: bool,
) -> (r: WgpuMemory)
    requires
        size % 4 == 0,
        size > 0,
        size <= context.spec_max_buffer_size(),
        offset + logical_size <= size,
    ensures
        r.spec_size() == size,
        r.spec_offset() == offset,
        r.spec_logical_size() == logical_size,
        r.spec_readonly() == readonly,
        r.spec_context_id() == context.spec_context_id(),
        !r.spec_mapped(),
{
    let usage = if readonly {
        wgpu::BufferUsages::COPY_DST | wgpu::BufferUsages::MAP_READ
    } else {
        wgpu::BufferUsages::COPY_SRC | wgpu::BufferUsages::MAP_WRITE
    };
    let buffer = context.device().create_buffer(&wgpu::BufferDescriptor {
        label: None,
        size,
        usage,
        mapped_at_creation: false,
    });
    WgpuMemory { context, buffer, size, offset, logical_size, readonly, mapped: false }
}

/// Relies on wgpu::Buffer::destroy: releases the native buffer.
#[verifier::external_body]
fn destroy_memory(mem: WgpuMemory) {
    mem.buffer.destroy();
}

/// Relies on wgpu::CommandEncoder::copy_buffer_to_buffer,
/// wgpu::Queue::submit and wgpu::Device::poll: records a copy of the first
/// `n` bytes of `src` over the first `n` bytes of `dst` on their shared
/// context's queue, submits it, and blocks until that submission completes
/// or the bounded wait elapses.
#[verifier::external_body]
fn copy_submit_raw(dst: &mut WgpuMemory, src: &WgpuMemory, n: u64) -> (r: PollOutcome)
    requires
        !old(dst).spec_mapped(),
        !src.spec_mapped(),
        old(dst).wf(),
        src.wf(),
        !src.spec_readonly(),
        old(dst).spec_readonly(),
        n % 4 == 0,
        n <= old(dst).spec_size(),
        n <= src.spec_size(),
        old(dst).spec_context_id() == src.spec_context_id(),
    ensures
        *final(dst) == *old(dst),
{
    let device = dst.context.device();
    let mut encoder = device.create_command_encoder(&wgpu::CommandEncoderDescriptor { label: None });
    encoder.copy_buffer_to_buffer(&src.buffer, 0, &dst.buffer, 0, Some(n));
    let index = dst.context.queue().submit([encoder.finish()]);
    let timeout = Some(std::time::Duration::from_millis(MAP_TIMEOUT_MILLIS));
    match device.poll(wgpu::PollType::Wait { submission_index: Some(index), timeout }) {
        Ok(wgpu::PollStatus::QueueEmpty) => PollOutcome::QueueEmpty,
        Ok(wgpu::PollStatus::WaitSucceeded) => PollOutcome::WaitSucceeded,
        Ok(wgpu::PollStatus::Poll) => PollOutcome::Polled,
        Err(wgpu::PollError::Timeout) => PollOutcome::TimedOut,
        Err(_) => PollOutcome::Fault,
    }
}

/// The copy's conditions on its endpoints: both unmapped, the source
/// writable (copy-source usage), the destination read-only
/// (copy-destination usage), and the length a whole number of copy
/// granules.
pub open spec fn copy_ready(dst: WgpuMemory, src: WgpuMemory, n: int) -> bool {
    &&& !dst.spec_mapped()
    &&& !src.spec_mapped()
    &&& !src.spec_readonly()
    &&& dst.spec_readonly()
    &&& n % 4 == 0
}

/// Copies the first `n` bytes of `src` into `dst` through the context's
/// queue and waits for the submission. Both allocations must be unmapped,
/// large enough, aligned to the copy granule, of the usages the copy needs
/// (writable source, read-only destination) and of one context; a violated
/// condition is a per-operation `MapFailed`/`BufferTooSmall`, never a
/// partial copy. A submission whose wait did not finish is `MapTimeout`.
pub fn copy_into(dst: &mut WgpuMemory, src: &WgpuMemory, n: u64) -> (r: Result<(), MemoryError>)
    requires
        old(dst).wf(),
        src.wf(),
        old(dst).spec_context_id() == src.spec_context_id(),
    ensures
        final(dst).wf(),
        *final(dst) == *old(dst),
        !copy_ready(*old(dst), *src, n as int) ==> r == Err::<(), MemoryError>(
            MemoryError::MapFailed,
        ),
        copy_ready(*old(dst), *src, n as int) && (n > old(dst).spec_size() || n
            > src.spec_size()) ==> r == Err::<(), MemoryError>(MemoryError::BufferTooSmall),
        copy_ready(*old(dst), *src, n as int) && n <= old(dst).spec_size() && n
            <= src.spec_size() ==> r is Ok || r == Err::<(), MemoryError>(MemoryError::MapTimeout)
            || r == Err::<(), MemoryError>(MemoryError::MapFailed),
{
    if dst.is_mapped() || src.is_mapped() || src.readonly() || !dst.readonly() || n % 4 != 0 {
        return Err(MemoryError::MapFailed);
    }
    if n > dst.size() || n > src.size() {
        return Err(MemoryError::BufferTooSmall);
    }
    match copy_submit_raw(dst, src, n) {
        PollOutcome::QueueEmpty => Ok(()),
        PollOutcome::WaitSucceeded => Ok(()),
        PollOutcome::Polled => Ok(()),
        PollOutcome::TimedOut => Err(MemoryError::MapTimeout),
        PollOutcome::Fault => Err(MemoryError::MapFailed),
    }
}

/// Moves one frame of bytes through the GPU: maps the writable input
/// allocation, writes the bytes, unmaps, copies input to output on the
/// context's queue and waits, maps the read-only output and reads the same
/// number of bytes back, then unmaps. A GPU-side failure or an elapsed
/// bounded wait fails only this frame (`MapFailed`/`MapTimeout`); either
/// way both allocations end up unmapped and ready for the next frame.
pub fn transfer_frame(input: &mut WgpuMemory, output: &mut WgpuMemory, bytes: &Vec<u8>) -> (r:
    Result<Vec<u8>, MemoryError>)
    requires
        old(input).wf(),
        old(output).wf(),
        !old(input).spec_readonly(),
        old(output).spec_readonly(),
        old(input).spec_context_id() == old(output).spec_context_id(),
        !old(input).spec_mapped(),
        !old(output).spec_mapped(),
        bytes@.len() % 4 == 0,
        bytes@.len() <= old(input).spec_size(),
        bytes@.len() <= old(output).spec_size(),
    ensures
        final(input).wf(),
        final(output).wf(),
        final(input).spec_size() == old(input).spec_size(),
        final(input).spec_readonly() == old(input).spec_readonly(),
        final(input).spec_context_id() == old(input).spec_context_id(),
        final(output).spec_size() == old(output).spec_size(),
        final(output).spec_readonly() == old(output).spec_readonly(),
        final(output).spec_context_id() == old(output).spec_context_id(),
        !final(input).spec_mapped(),
        !final(output).spec_mapped(),
        r is Ok ==> r->Ok_0@.len() == bytes@.len(),
        r is Err ==> r == Err::<Vec<u8>, MemoryError>(MemoryError::MapFailed) || r == Err::<
            Vec<u8>,
            MemoryError,
        >(MemoryError::MapTimeout),
{
    let n = bytes.len() as u64;
    match input.map_write(n) {
        Ok(()) => (),
        Err(e) => {
            return Err(e);
        },
    }
    let wrote = input.write_mapped(bytes);
    proof {
        assert(wrote is Ok);
    }
    input.unmap();
    match copy_into(output, input, n) {
        Ok(()) => (),
        Err(e) => {
            return Err(e);
        },
    }
    match output.map_read(n) {
        Ok(()) => (),
        Err(e) => {
            return Err(e);
        },
    }
    let got = match output.read_mapped(n) {
        Ok(v) => v,
        Err(e) => {
            proof {
                assert(false);
            }
            return Err(e);
        },
    };
    output.unmap();
    Ok(got)
}

/// The custom allocator of the GPU buffer memory kind: it allocates every
/// buffer on the one context it was created for.
pub struct WgpuMemoryAllocator {
    context: WgpuContext,
}

impl WgpuMemoryAllocator {
    /// The identity of the context this allocator allocates on.
    pub closed spec fn spec_context_id(&self) -> u64 {
        self.context.spec_context_id()
    }

    /// The largest buffer the context's device allows.
    pub closed spec fn spec_max_buffer_size(&self) -> u64 {
        self.context.spec_max_buffer_size()
    }

    /// An allocator that uses the given context for allocating buffers.
    pub fn new(context: WgpuContext) -> (r: WgpuMemoryAllocator)
        ensures
            r.spec_context_id() == context.spec_context_id(),
    {
        WgpuMemoryAllocator { context }
    }

    /// The context this allocator allocates on.
    pub fn context(&self) -> (r: &WgpuContext)
        ensures
            r.spec_context_id() == self.spec_context_id(),
    {
        &self.context
    }

    /// Computes the physical size from the requested size plus the prefix,
    /// padding and alignment parameters, creates a native GPU buffer of
    /// that size — read-only allocations get copy-destination + map-read
    /// usage, writable ones copy-source + map-write — and returns the
    /// allocation, unmapped, referencing the owning context. Fails with
    /// `AllocationFailed`, creating nothing, exactly when the physical size
    /// does not fit the machine word or exceeds what the device allows.
    pub fn allocate(&self, size: usize, params: Option<&AllocationParams>) -> (r: Result<
        WgpuMemory,
        MemoryError,
    >)
        ensures
            ({
                let prefix = match params {
                    Some(p) => p.prefix as int,
                    None => 0,
                };
                let padding = match params {
                    Some(p) => p.padding as int,
                    None => 0,
                };
                let readonly = match params {
                    Some(p) => p.readonly,
                    None => false,
                };
                if alloc_fits(size as int, prefix, padding) && physical_size(
                    size as int,
                    prefix,
                    padding,
                ) <= self.spec_max_buffer_size() {
                    &&& r is Ok
                    &&& ({
                        let m = r->Ok_0;
                        &&& m.wf()
                        &&& m.spec_size() == physical_size(size as int, prefix, padding)
                        &&& m.spec_offset() == prefix
                        &&& m.spec_logical_size() == size
                        &&& m.spec_readonly() == readonly
                        &&& !m.spec_mapped()
                        &&& m.spec_context_id() == self.spec_context_id()
                    })
                } else {
                    r == Err::<WgpuMemory, MemoryError>(MemoryError::AllocationFailed)
                }
            }),
    {
        let (prefix, padding, readonly) = match params {
            Some(p) => (p.prefix, p.padding, p.readonly),
            None => (0, 0, false),
        };
        let total = match prefix.checked_add(size) {
            Some(t) => t,
            None => {
                return Err(MemoryError::AllocationFailed);
            },
        };
        let total = match total.checked_add(padding) {
            Some(t) => t,
            None => {
                return Err(MemoryError::AllocationFailed);
            },
        };
        let t3 = match total.checked_add(3) {
            Some(t) => t,
            None => {
                return Err(MemoryError::AllocationFailed);
            },
        };
        let q = t3 / 4;
        proof {
            vstd::arithmetic::div_mod::lemma_fundamental_div_mod(t3 as int, 4);
            assert(4 * (t3 as int / 4) == (t3 as int / 4) * 4) by (nonlinear_arith);
            assert((t3 as int / 4) * 4 % 4 == 0) by (nonlinear_arith);
        }
        let rounded = q * 4;
        let phys: usize = if rounded == 0 {
            4
        } else {
            rounded
        };
        if phys as u64 > self.context.max_buffer_size() {
            return Err(MemoryError::AllocationFailed);
        }
        Ok(
            create_memory(
                self.context.clone_ref(),
                phys as u64,
                prefix as u64,
                size as u64,
                readonly,
            ),
        )
    }

    /// Releases the allocation: the native buffer and the record together,
    /// exactly once — the allocation is consumed — and never concurrently
    /// with a map: the caller unmaps before freeing.
    pub fn free(&self, mem: WgpuMemory)
        requires
            !mem.spec_mapped(),
    {
        destroy_memory(mem);
    }
}

} // verus!
