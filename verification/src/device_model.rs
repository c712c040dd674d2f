//! Executable model of the GPU device's buffer storage.
//!
//! The host's generic memory system dispatches on a raw buffer-header
//! layout; here that record is modeled as an opaque handle into a side
//! table mapping each allocation to its bytes, its usage, its prefix
//! offset, its logical size and its mapping state. The side table gives the
//! same semantics (constant-time lookup, type-checked dispatch) without raw
//! memory aliasing.
//!
//! Mapping follows the GPU rules: an allocation has zero or one outstanding
//! map at a time, a map over more bytes than the allocation holds is
//! refused, and a map whose mode contradicts the allocation's usage is
//! refused.

use crate::MemoryError;
use vstd::prelude::*;

verus! {

/// The two mapping modes of a GPU buffer.
#[derive(Debug, Clone, Copy, PartialEq, Eq, Structural)]
pub enum MapMode {
    Read,
    Write,
}

/// Extra allocation parameters: a prefix before the logical bytes, padding
/// after them, and whether the allocation is read-only (copy-destination +
/// map-read) or writable (copy-source + map-write).
#[derive(Debug, Clone, Copy, PartialEq, Eq, Structural)]
pub struct AllocationParams {
    pub prefix: usize,
    pub padding: usize,
    pub readonly: bool,
}

/// One GPU allocation in the side table.
pub struct ModelBuffer {
    /// The physical bytes of the allocation.
    pub data: Vec<u8>,
    /// Read-only allocations map for read; writable ones map for write.
    pub readonly: bool,
    /// Byte offset of the logical range (the requested prefix).
    pub offset: usize,
    /// The logical size requested at allocation.
    pub logical_size: usize,
    /// The at-most-one active mapping of this allocation.
    pub mapped: Option<MapMode>,
    /// Whether the allocation has been released.
    pub freed: bool,
}

/// The device's buffer storage: a side table keyed by handle (index).
pub struct ModelDevice {
    pub buffers: Vec<ModelBuffer>,
}

/// The smallest multiple of the 4-byte map granule that holds `n` bytes.
pub open spec fn round_up4(n: int) -> int {
    ((n + 3) / 4) * 4
}

/// The physical size of an allocation: prefix, logical bytes and padding,
/// rounded up to the map granule.
pub open spec fn physical_size(size: int, prefix: int, padding: int) -> int {
    round_up4(prefix + size + padding)
}

/// Whether the physical size computation stays within the machine limit.
pub open spec fn alloc_fits(size: int, prefix: int, padding: int) -> bool {
    prefix + size + padding + 3 <= usize::MAX
}

/// The error a map request gets, if any: a second concurrent map is
/// refused, then a map beyond the allocated capacity, then a map whose mode
/// contradicts the allocation's usage.
pub open spec fn map_precheck(b: ModelBuffer, size: int, mode: MapMode) -> Option<MemoryError> {
    if b.mapped is Some {
        Some(MemoryError::AlreadyMapped)
    } else if size > b.data.len() {
        Some(MemoryError::BufferTooSmall)
    } else if (mode is Read) != b.readonly {
        Some(MemoryError::MapFailed)
    } else {
        None
    }
}

/// A sequence with its prefix overwritten by `bytes`.
pub open spec fn overwrite_prefix(data: Seq<u8>, bytes: Seq<u8>) -> Seq<u8> {
    bytes + data.skip(bytes.len() as int)
}

/// A destination sequence whose first `n` bytes were replaced by the
/// source's first `n` bytes.
pub open spec fn copy_range(dst: Seq<u8>, src: Seq<u8>, n: int) -> Seq<u8> {
    src.take(n) + dst.skip(n)
}

/// All table entries but `h` are the same in `post` as in `pre`.
pub open spec fn unchanged_except(pre: ModelDevice, post: ModelDevice, h: int) -> bool {
    &&& post.buffers.len() == pre.buffers.len()
    &&& forall|i: int|
        0 <= i < pre.buffers.len() && i != h ==> post.buffers[i] == #[trigger] pre.buffers[i]
}

/// The non-data, non-mapping attributes of an allocation agree.
pub open spec fn same_meta(a: ModelBuffer, b: ModelBuffer) -> bool {
    &&& a.readonly == b.readonly
    &&& a.offset == b.offset
    &&& a.logical_size == b.logical_size
    &&& a.freed == b.freed
}

/// A vector of `n` zero bytes.
fn zero_vec(n: usize) -> (r: Vec<u8>)
    ensures
        r@.len() == n,
        forall|i: int| 0 <= i < n ==> r@[i] == 0u8,
{
    let mut v: Vec<u8> = Vec::new();
    let mut k: usize = 0;
    while k < n
        invariant
            k <= n,
            v@.len() == k,
            forall|i: int| 0 <= i < k ==> v@[i] == 0u8,
        decreases n - k,
    {
        v.push(0);
        k = k + 1;
    }
    v
}

impl ModelDevice {
    /// A device with no allocations.
    pub fn new() -> (r: ModelDevice)
        ensures
            r.buffers.len() == 0,
    {
        ModelDevice { buffers: Vec::new() }
    }

    /// Whether `h` names an entry of the side table.
    pub open spec fn valid_handle(&self, h: int) -> bool {
        0 <= h < self.buffers.len()
    }

    /// Computes the physical size from the requested size and the extra
    /// parameters, creates a zero-filled allocation of that size with the
    /// usage chosen by `readonly`, and returns its handle. Fails with
    /// `AllocationFailed` (leaving the table unchanged) exactly when the
    /// physical size does not fit the machine word.
    pub fn allocate(&mut self, size: usize, params: Option<&AllocationParams>) -> (r: Result<
        usize,
        MemoryError,
    >)
        ensures
            ({
                let prefix = match params {
                    Some(p) => p.prefix as int,
                    None => 0,
                };
                let padding = match params {
                    Some(p) => p.padding as int,
                    None => 0,
                };
                let readonly = match params {
                    Some(p) => p.readonly,
                    None => false,
                };
                if alloc_fits(size as int, prefix, padding) {
                    &&& r == Ok::<usize, MemoryError>(old(self).buffers.len() as usize)
                    &&& final(self).buffers.len() == old(self).buffers.len() + 1
                    &&& forall|i: int|
                        0 <= i < old(self).buffers.len() ==> final(self).buffers[i] == #[trigger] old(
                            self,
                        ).buffers[i]
                    &&& ({
                        let b = final(self).buffers[old(self).buffers.len() as int];
                        &&& b.data@.len() == physical_size(size as int, prefix, padding)
                        &&& (forall|i: int| 0 <= i < b.data@.len() ==> b.data@[i] == 0u8)
                        &&& b.readonly == readonly
                        &&& b.offset == prefix
                        &&& b.logical_size == size
                        &&& b.mapped is None
                        &&& !b.freed
                    })
                } else {
                    r == Err::<usize, MemoryError>(MemoryError::AllocationFailed) && *final(self)
                        == *old(self)
                }
            }),
    {
        let (prefix, padding, readonly) = match params {
            Some(p) => (p.prefix, p.padding, p.readonly),
            None => (0, 0, false),
        };
        let total = match prefix.checked_add(size) {
            Some(t) => t,
            None => {
                return Err(MemoryError::AllocationFailed);
            },
        };
        let total = match total.checked_add(padding) {
            Some(t) => t,
            None => {
                return Err(MemoryError::AllocationFailed);
            },
        };
        let rounded = match total.checked_add(3) {
            Some(t) => (t / 4) * 4,
            None => {
                return Err(MemoryError::AllocationFailed);
            },
        };
        let data = zero_vec(rounded);
        let handle = self.buffers.len();
        self.buffers.push(
            ModelBuffer {
                data,
                readonly,
                offset: prefix,
                logical_size: size,
                mapped: None,
                freed: false,
            },
        );
        Ok(handle)
    }

    /// Requests a map of `[0, size)` in the given mode. A second map while
    /// one is active fails with `AlreadyMapped` and does not disturb the
    /// active mapping; a map beyond the capacity fails with
    /// `BufferTooSmall`; a mode against the allocation's usage fails with
    /// `MapFailed`. On success the allocation's single active mapping is
    /// recorded.
    pub fn map(&mut self, h: usize, size: usize, mode: MapMode) -> (r: Result<(), MemoryError>)
        requires
            old(self).valid_handle(h as int),
            !old(self).buffers[h as int].freed,
        ensures
            ({
                let pre = old(self).buffers[h as int];
                match map_precheck(pre, size as int, mode) {
                    Some(e) => r == Err::<(), MemoryError>(e) && *final(self) == *old(self),
                    None => {
                        &&& r == Ok::<(), MemoryError>(())
                        &&& unchanged_except(*old(self), *final(self), h as int)
                        &&& ({
                            let post = final(self).buffers[h as int];
                            &&& same_meta(pre, post)
                            &&& post.data == pre.data
                            &&& post.mapped == Some(mode)
                        })
                    },
                }
            }),
    {
        let already = self.buffers[h].mapped.is_some();
        if already {
            return Err(MemoryError::AlreadyMapped);
        }
        if size > self.buffers[h].data.len() {
            return Err(MemoryError::BufferTooSmall);
        }
        let is_read = match mode {
            MapMode::Read => true,
            MapMode::Write => false,
        };
        if is_read != self.buffers[h].readonly {
            return Err(MemoryError::MapFailed);
        }
        let pre = self.buffers.remove(h);
        let post = ModelBuffer { mapped: Some(mode), ..pre };
        self.buffers.insert(h, post);
        Ok(())
    }

    /// Writes `bytes` at the start of a write-mapped allocation. Fails with
    /// `MapFailed` when no write mapping is active, with `BufferTooSmall`
    /// when the bytes do not fit the allocation.
    pub fn write_mapped(&mut self, h: usize, bytes: &Vec<u8>) -> (r: Result<(), MemoryError>)
        requires
            old(self).valid_handle(h as int),
            !old(self).buffers[h as int].freed,
        ensures
            ({
                let pre = old(self).buffers[h as int];
                if pre.mapped != Some(MapMode::Write) {
                    r == Err::<(), MemoryError>(MemoryError::MapFailed) && *final(self) == *old(self)
                } else if bytes@.len() > pre.data@.len() {
                    r == Err::<(), MemoryError>(MemoryError::BufferTooSmall) && *final(self)
                        == *old(self)
                } else {
                    &&& r == Ok::<(), MemoryError>(())
                    &&& unchanged_except(*old(self), *final(self), h as int)
                    &&& ({
                        let post = final(self).buffers[h as int];
                        &&& same_meta(pre, post)
                        &&& post.mapped == pre.mapped
                        &&& post.data@ == overwrite_prefix(pre.data@, bytes@)
                    })
                }
            }),
    {
        let write_active = match self.buffers[h].mapped {
            Some(MapMode::Write) => true,
            _ => false,
        };
        if !write_active {
            return Err(MemoryError::MapFailed);
        }
        if bytes.len() > self.buffers[h].data.len() {
            return Err(MemoryError::BufferTooSmall);
        }
        let pre = self.buffers.remove(h);
        let mut data = pre.data;
        let mut k: usize = 0;
        while k < bytes.len()
            invariant
                k <= bytes@.len(),
                bytes@.len() <= data@.len(),
                data@.len() == old(self).buffers[h as int].data@.len(),
                forall|i: int| 0 <= i < k ==> data@[i] == bytes@[i],
                forall|i: int|
                    k <= i < data@.len() ==> data@[i] == old(self).buffers[h as int].data@[i],
            decreases bytes@.len() - k,
        {
            data.set(k, bytes[k]);
            k = k + 1;
        }
        proof {
            assert(data@ =~= overwrite_prefix(old(self).buffers[h as int].data@, bytes@));
        }
        let post = ModelBuffer { data, ..pre };
        self.buffers.insert(h, post);
        Ok(())
    }

    /// Reads the first `n` bytes of a read-mapped allocation. Fails with
    /// `MapFailed` when no read mapping is active, with `BufferTooSmall`
    /// when `n` exceeds the allocation.
    pub fn read_mapped(&self, h: usize, n: usize) -> (r: Result<Vec<u8>, MemoryError>)
        requires
            self.valid_handle(h as int),
            !self.buffers[h as int].freed,
        ensures
            ({
                let b = self.buffers[h as int];
                if b.mapped != Some(MapMode::Read) {
                    r == Err::<Vec<u8>, MemoryError>(MemoryError::MapFailed)
                } else if n > b.data@.len() {
                    r == Err::<Vec<u8>, MemoryError>(MemoryError::BufferTooSmall)
                } else {
                    r is Ok && r->Ok_0@ == b.data@.take(n as int)
                }
            }),
    {
        let read_active = match self.buffers[h].mapped {
            Some(MapMode::Read) => true,
            _ => false,
        };
        if !read_active {
            return Err(MemoryError::MapFailed);
        }
        if n > self.buffers[h].data.len() {
            return Err(MemoryError::BufferTooSmall);
        }
        let mut out: Vec<u8> = Vec::new();
        let mut k: usize = 0;
        while k < n
            invariant
                k <= n,
                n <= self.buffers[h as int].data@.len(),
                self.valid_handle(h as int),
                out@.len() == k,
                forall|i: int| 0 <= i < k ==> out@[i] == self.buffers[h as int].data@[i],
            decreases n - k,
        {
            out.push(self.buffers[h].data[k]);
            k = k + 1;
        }
        proof {
            assert(out@ =~= self.buffers[h as int].data@.take(n as int));
        }
        Ok(out)
    }

    /// Drops the active mapping view, if any; the allocation's bytes are
    /// untouched. Idempotent.
    pub fn unmap(&mut self, h: usize)
        requires
            old(self).valid_handle(h as int),
        ensures
            unchanged_except(*old(self), *final(self), h as int),
            ({
                let pre = old(self).buffers[h as int];
                let post = final(self).buffers[h as int];
                &&& same_meta(pre, post)
                &&& post.data == pre.data
                &&& post.mapped is None
            }),
    {
        let pre = self.buffers.remove(h);
        let post = ModelBuffer { mapped: None, ..pre };
        self.buffers.insert(h, post);
    }

    /// Copies the first `n` bytes of `src` over the first `n` bytes of
    /// `dst`, as the GPU's buffer-to-buffer copy does after the submission
    /// completes. Both allocations must be distinct and unmapped and must
    /// hold `n` bytes; otherwise the submission fails and nothing changes.
    pub fn copy_buffer(&mut self, src: usize, dst: usize, n: usize) -> (r: Result<
        (),
        crate::FrameError,
    >)
        requires
            old(self).valid_handle(src as int),
            old(self).valid_handle(dst as int),
            !old(self).buffers[src as int].freed,
            !old(self).buffers[dst as int].freed,
        ensures
            ({
                let s = old(self).buffers[src as int];
                let d = old(self).buffers[dst as int];
                if src == dst || s.mapped is Some || d.mapped is Some || n > s.data@.len() || n
                    > d.data@.len() {
                    &&& r == Err::<(), crate::FrameError>(crate::FrameError::SubmissionError)
                    &&& *final(self) == *old(self)
                } else {
                    &&& r == Ok::<(), crate::FrameError>(())
                    &&& unchanged_except(*old(self), *final(self), dst as int)
                    &&& ({
                        let post = final(self).buffers[dst as int];
                        &&& same_meta(d, post)
                        &&& post.mapped == d.mapped
                        &&& post.data@ == copy_range(d.data@, s.data@, n as int)
                    })
                }
            }),
    {
        if src == dst {
            return Err(crate::FrameError::SubmissionError);
        }
        if self.buffers[src].mapped.is_some() || self.buffers[dst].mapped.is_some() {
            return Err(crate::FrameError::SubmissionError);
        }
        if n > self.buffers[src].data.len() || n > self.buffers[dst].data.len() {
            return Err(crate::FrameError::SubmissionError);
        }
        let pre = self.buffers.remove(dst);
        proof {
            assert(forall|i: int|
                0 <= i < old(self).buffers.len() && i != dst ==> self.buffers@[if i < dst {
                    i
                } else {
                    i - 1
                }] == #[trigger] old(self).buffers[i]);
        }
        let ghost src_pre = old(self).buffers[src as int];
        let src_fixed = if src < dst {
            src
        } else {
            src - 1
        };
        let mut data = pre.data;
        let mut k: usize = 0;
        while k < n
            invariant
                k <= n,
                src_fixed < self.buffers@.len(),
                self.buffers@[src_fixed as int] == src_pre,
                n <= src_pre.data@.len(),
                n <= data@.len(),
                data@.len() == old(self).buffers[dst as int].data@.len(),
                forall|i: int| 0 <= i < k ==> data@[i] == src_pre.data@[i],
                forall|i: int|
                    k <= i < data@.len() ==> data@[i] == old(self).buffers[dst as int].data@[i],
            decreases n - k,
        {
            let byte = self.buffers[src_fixed].data[k];
            data.set(k, byte);
            k = k + 1;
        }
        proof {
            assert(data@ =~= copy_range(
                old(self).buffers[dst as int].data@,
                src_pre.data@,
                n as int,
            ));
        }
        let post = ModelBuffer { data, ..pre };
        self.buffers.insert(dst, post);
        Ok(())
    }

    /// Releases an allocation: safe to call exactly once, and only when no
    /// mapping is active (the caller unmaps before freeing).
    pub fn free(&mut self, h: usize)
        requires
            old(self).valid_handle(h as int),
            !old(self).buffers[h as int].freed,
            old(self).buffers[h as int].mapped is None,
        ensures
            unchanged_except(*old(self), *final(self), h as int),
            ({
                let pre = old(self).buffers[h as int];
                let post = final(self).buffers[h as int];
                &&& post.freed
                &&& post.mapped is None
            }),
    {
        let pre = self.buffers.remove(h);
        let post = ModelBuffer { data: Vec::new(), freed: true, ..pre };
        self.buffers.insert(h, post);
    }
}

/// Law: writing bytes into a write-mapped allocation, copying that
/// allocation into a second one, and reading the copied range back yields
/// exactly the bytes written: the round trip through the device preserves
/// content.
pub proof fn lemma_round_trip_preserves_content(
    src_data: Seq<u8>,
    dst_data: Seq<u8>,
    bytes: Seq<u8>,
)
    requires
        bytes.len() <= src_data.len(),
        bytes.len() <= dst_data.len(),
    ensures
        copy_range(dst_data, overwrite_prefix(src_data, bytes), bytes.len() as int).take(
            bytes.len() as int,
        ) == bytes,
{
    let n = bytes.len() as int;
    let written = overwrite_prefix(src_data, bytes);
    assert(written.take(n) =~= bytes);
    assert(copy_range(dst_data, written, n).take(n) =~= written.take(n));
}

} // verus!
