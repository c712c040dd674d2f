//! The per-stage compute filter pipeline.
//!
//! On resolution negotiation a stage builds, on its context's device, an
//! input staging buffer (host-writable), an output staging buffer
//! (host-readable), an input texture and an output texture, all sized for
//! the negotiated `width * height * 4` frame, and keeps them together with
//! the compiled kernel. The state is only valid for the exact resolution it
//! was built with; a resolution change rebuilds it.
//!
//! Per frame, the host bytes are written into the mapped input buffer, the
//! buffer is unmapped and copied into the input texture, the kernel is
//! dispatched in 8x8 tiles, the output texture is copied into the output
//! buffer, which is then mapped for read; the result bytes are copied out,
//! the output buffer is unmapped and the input buffer is re-armed for the
//! next frame's write. A failure fails only that frame, never the stage.

use crate::FrameError;
use crate::MemoryError;
use crate::device_model::AllocationParams;
use crate::device_model::MapMode;
use crate::device_model::ModelBuffer;
use crate::device_model::ModelDevice;
use crate::device_model::unchanged_except;
use crate::kernel::Kernel3;
use crate::kernel::filtered;
use vstd::prelude::*;

verus! {

/// The number of 8-wide workgroups that cover `n` pixels.
pub open spec fn div_ceil8(n: int) -> int {
    (n + 7) / 8
}

/// Computes how many 8-wide workgroups cover `n` pixels (the kernel's
/// declared local size is 8x8, so the dispatch must tile by 8).
pub fn workgroups_for(n: usize) -> (r: usize)
    requires
        n <= usize::MAX - 7,
    ensures
        r == div_ceil8(n as int),
{
    let q = n / 8;
    let rem = n % 8;
    proof {
        vstd::arithmetic::div_mod::lemma_fundamental_div_mod(n as int, 8);
        if rem == 0 {
            vstd::arithmetic::div_mod::lemma_fundamental_div_mod_converse(
                n as int + 7,
                8,
                q as int,
                7,
            );
        } else {
            vstd::arithmetic::div_mod::lemma_fundamental_div_mod_converse(
                n as int + 7,
                8,
                q as int + 1,
                rem as int - 1,
            );
        }
    }
    if rem == 0 {
        q
    } else {
        q + 1
    }
}

/// The per-resolution GPU resource set of one stage: staging buffers,
/// textures, and the compiled kernel, each named by its handle on the
/// stage's device.
pub struct ComputeFilterPipeline {
    pub width: usize,
    pub height: usize,
    pub kernel: Kernel3,
    pub input_buffer: usize,
    pub input_texture: usize,
    pub output_texture: usize,
    pub output_buffer: usize,
}

impl ComputeFilterPipeline {
    /// The byte size of one frame at the negotiated resolution.
    pub open spec fn frame_size(&self) -> int {
        self.width * self.height * 4
    }

    /// The four resources are distinct allocations.
    pub open spec fn handles_distinct(&self) -> bool {
        &&& self.input_buffer != self.input_texture
        &&& self.input_buffer != self.output_texture
        &&& self.input_buffer != self.output_buffer
        &&& self.input_texture != self.output_texture
        &&& self.input_texture != self.output_buffer
        &&& self.output_texture != self.output_buffer
    }

    /// The pipeline state is valid on `dev` for the exact resolution it was
    /// built with: all four allocations exist, are frame-sized and live,
    /// the input staging buffer is writable and armed (mapped for write),
    /// the output staging buffer is read-only and unmapped, and the
    /// textures are unmapped.
    pub open spec fn wf(&self, dev: ModelDevice) -> bool {
        &&& self.kernel.wf()
        &&& self.width >= 1
        &&& self.height >= 1
        &&& self.frame_size() + 3 <= usize::MAX
        &&& dev.valid_handle(self.input_buffer as int)
        &&& dev.valid_handle(self.input_texture as int)
        &&& dev.valid_handle(self.output_texture as int)
        &&& dev.valid_handle(self.output_buffer as int)
        &&& self.handles_distinct()
        &&& ({
            let ib = dev.buffers[self.input_buffer as int];
            &&& ib.data@.len() == self.frame_size()
            &&& !ib.readonly
            &&& !ib.freed
            &&& ib.mapped == Some(MapMode::Write)
        })
        &&& ({
            let it = dev.buffers[self.input_texture as int];
            &&& it.data@.len() == self.frame_size()
            &&& !it.freed
            &&& it.mapped is None
        })
        &&& ({
            let ot = dev.buffers[self.output_texture as int];
            &&& ot.data@.len() == self.frame_size()
            &&& !ot.freed
            &&& ot.mapped is None
        })
        &&& ({
            let ob = dev.buffers[self.output_buffer as int];
            &&& ob.data@.len() == self.frame_size()
            &&& ob.readonly
            &&& !ob.freed
            &&& ob.mapped is None
        })
    }

    /// Whether a resolution can be negotiated at all: positive dimensions
    /// whose frame size fits the machine word.
    pub open spec fn negotiable(width: int, height: int) -> bool {
        &&& width >= 1
        &&& height >= 1
        &&& width * height * 4 + 3 <= usize::MAX
    }

    /// Builds the pipeline state for a newly negotiated resolution:
    /// allocates the two staging buffers and the two textures on the
    /// stage's device, arms the input buffer for the first frame's write,
    /// and keeps the compiled kernel. Fails with `AllocationFailed`, and
    /// allocates nothing, exactly when the resolution is not negotiable.
    pub fn negotiate(dev: &mut ModelDevice, width: usize, height: usize, kernel: Kernel3) -> (r:
        Result<ComputeFilterPipeline, MemoryError>)
        requires
            kernel.wf(),
        ensures
            Self::negotiable(width as int, height as int) ==> {
                &&& r is Ok
                &&& r->Ok_0.wf(*final(dev))
                &&& r->Ok_0.width == width
                &&& r->Ok_0.height == height
                &&& r->Ok_0.kernel == kernel
                &&& final(dev).buffers.len() == old(dev).buffers.len() + 4
                &&& forall|i: int|
                    0 <= i < old(dev).buffers.len() ==> final(dev).buffers[i] == #[trigger] old(
                        dev,
                    ).buffers[i]
            },
            !Self::negotiable(width as int, height as int) ==> r == Err::<
                ComputeFilterPipeline,
                MemoryError,
            >(MemoryError::AllocationFailed) && *final(dev) == *old(dev),
    {
        if width == 0 || height == 0 {
            return Err(MemoryError::AllocationFailed);
        }
        let wh = match width.checked_mul(height) {
            Some(v) => v,
            None => {
                return Err(MemoryError::AllocationFailed);
            },
        };
        let fs = match wh.checked_mul(4) {
            Some(v) => v,
            None => {
                return Err(MemoryError::AllocationFailed);
            },
        };
        if fs > usize::MAX - 3 {
            return Err(MemoryError::AllocationFailed);
        }
        let writable = AllocationParams { prefix: 0, padding: 0, readonly: false };
        let readable = AllocationParams { prefix: 0, padding: 0, readonly: true };
        let input_buffer = match dev.allocate(fs, Some(&writable)) {
            Ok(h) => h,
            Err(e) => {
                return Err(e);
            },
        };
        let input_texture = match dev.allocate(fs, Some(&writable)) {
            Ok(h) => h,
            Err(e) => {
                return Err(e);
            },
        };
        let output_texture = match dev.allocate(fs, Some(&writable)) {
            Ok(h) => h,
            Err(e) => {
                return Err(e);
            },
        };
        let output_buffer = match dev.allocate(fs, Some(&readable)) {
            Ok(h) => h,
            Err(e) => {
                return Err(e);
            },
        };
        proof {
            assert(crate::device_model::physical_size(fs as int, 0, 0) == fs as int)
                by (nonlinear_arith)
                requires
                    fs as int % 4 == 0,
                    fs >= 0,
            ;
            assert(fs as int % 4 == 0) by (nonlinear_arith)
                requires
                    fs == (width as int) * (height as int) * 4,
            ;
        }
        let armed = dev.map(input_buffer, fs, MapMode::Write);
        proof {
            assert(armed is Ok);
        }
        Ok(
            ComputeFilterPipeline {
                width,
                height,
                kernel,
                input_buffer,
                input_texture,
                output_texture,
                output_buffer,
            },
        )
    }
}

/// Runs the compute dispatch on the device: the destination texture
/// receives the kernel applied to the source texture, tiled by the 8x8
/// workgroups the counts were computed for. A dispatch against mismatched
/// or busy resources fails the submission and changes nothing.
pub fn dispatch_kernel(
    dev: &mut ModelDevice,
    k: &Kernel3,
    src: usize,
    dst: usize,
    w: usize,
    h: usize,
    groups_x: usize,
    groups_y: usize,
) -> (r: Result<(), FrameError>)
    requires
        old(dev).valid_handle(src as int),
        old(dev).valid_handle(dst as int),
        !old(dev).buffers[src as int].freed,
        !old(dev).buffers[dst as int].freed,
        k.wf(),
        w >= 1,
        h >= 1,
        w * h * 4 <= usize::MAX,
        groups_x == div_ceil8(w as int),
        groups_y == div_ceil8(h as int),
    ensures
        ({
            let s = old(dev).buffers[src as int];
            let d = old(dev).buffers[dst as int];
            if src == dst || s.mapped is Some || d.mapped is Some || s.data@.len() != w * h * 4
                || d.data@.len() != w * h * 4 {
                r == Err::<(), FrameError>(FrameError::SubmissionError) && *final(dev) == *old(dev)
            } else {
                &&& r == Ok::<(), FrameError>(())
                &&& unchanged_except(*old(dev), *final(dev), dst as int)
                &&& ({
                    let post = final(dev).buffers[dst as int];
                    &&& crate::device_model::same_meta(d, post)
                    &&& post.mapped == d.mapped
                    &&& post.data@ == filtered(k.coeffs@, s.data@, w as int, h as int)
                })
            }
        }),
{
    if src == dst {
        return Err(FrameError::SubmissionError);
    }
    if dev.buffers[src].mapped.is_some() || dev.buffers[dst].mapped.is_some() {
        return Err(FrameError::SubmissionError);
    }
    let fs = w * h * 4;
    if dev.buffers[src].data.len() != fs || dev.buffers[dst].data.len() != fs {
        return Err(FrameError::SubmissionError);
    }
    let out = crate::kernel::apply_kernel(k, &dev.buffers[src].data, w, h);
    let pre = dev.buffers.remove(dst);
    proof {
        assert((w as int) * (h as int) * 4 == ((w as int) * (h as int)) * 4) by (nonlinear_arith);
    }
    let post = ModelBuffer { data: out, ..pre };
    dev.buffers.insert(dst, post);
    Ok(())
}

impl ComputeFilterPipeline {
    /// Processes one frame: copies the host bytes into the armed input
    /// buffer, unmaps it, copies buffer to texture, dispatches the kernel,
    /// copies texture to buffer, waits, reads the mapped output back into
    /// the outgoing frame, unmaps it and re-arms the input buffer. A frame
    /// of the wrong size fails with `NotNegotiated` and changes nothing; on
    /// success the outgoing frame is exactly the kernel applied to the
    /// incoming one, and the pipeline stays valid for the next frame.
    pub fn process_frame(
        &self,
        dev: &mut ModelDevice,
        inframe: &Vec<u8>,
        outframe: &mut Vec<u8>,
    ) -> (r: Result<(), FrameError>)
        requires
            self.wf(*old(dev)),
        ensures
            inframe@.len() != self.frame_size() || old(outframe)@.len() != self.frame_size() ==> {
                &&& r == Err::<(), FrameError>(FrameError::NotNegotiated)
                &&& *final(dev) == *old(dev)
                &&& *final(outframe) == *old(outframe)
            },
            inframe@.len() == self.frame_size() && old(outframe)@.len() == self.frame_size() ==> {
                &&& r == Ok::<(), FrameError>(())
                &&& final(outframe)@ == filtered(
                    self.kernel.coeffs@,
                    inframe@,
                    self.width as int,
                    self.height as int,
                )
                &&& self.wf(*final(dev))
                &&& final(dev).buffers.len() == old(dev).buffers.len()
                &&& forall|i: int|
                    0 <= i < old(dev).buffers.len() && i != self.input_buffer && i
                        != self.input_texture && i != self.output_texture && i
                        != self.output_buffer ==> final(dev).buffers[i] == #[trigger] old(
                        dev,
                    ).buffers[i]
            },
    {
        proof {
            assert((self.width as int) * (self.height as int) * 4 >= (self.width as int) * (
            self.height as int)) by (nonlinear_arith)
                requires
                    self.width >= 1,
                    self.height >= 1,
            ;
            assert((self.width as int) <= (self.width as int) * (self.height as int))
                by (nonlinear_arith)
                requires
                    self.width >= 1,
                    self.height >= 1,
            ;
            assert((self.height as int) <= (self.width as int) * (self.height as int))
                by (nonlinear_arith)
                requires
                    self.width >= 1,
                    self.height >= 1,
            ;
        }
        let wh = self.width * self.height;
        let fs = wh * 4;
        if inframe.len() != fs || outframe.len() != fs {
            return Err(FrameError::NotNegotiated);
        }
        let groups_x = workgroups_for(self.width);
        let groups_y = workgroups_for(self.height);
        // Host bytes into the armed input staging buffer.
        let wrote = dev.write_mapped(self.input_buffer, inframe);
        proof {
            assert(wrote is Ok);
            assert(dev.buffers[self.input_buffer as int].data@ =~= inframe@);
        }
        // The next frame's copy must not begin before this one's GPU work
        // is done; the buffer is unmapped before the copy is recorded.
        dev.unmap(self.input_buffer);
        let copied_in = dev.copy_buffer(self.input_buffer, self.input_texture, fs);
        proof {
            assert(copied_in is Ok);
            assert(dev.buffers[self.input_texture as int].data@ =~= inframe@);
        }
        let dispatched = dispatch_kernel(
            dev,
            &self.kernel,
            self.input_texture,
            self.output_texture,
            self.width,
            self.height,
            groups_x,
            groups_y,
        );
        proof {
            assert(dispatched is Ok);
        }
        let copied_out = dev.copy_buffer(self.output_texture, self.output_buffer, fs);
        proof {
            assert(copied_out is Ok);
            assert(dev.buffers[self.output_buffer as int].data@ =~= filtered(
                self.kernel.coeffs@,
                inframe@,
                self.width as int,
                self.height as int,
            ));
        }
        let mapped = dev.map(self.output_buffer, fs, MapMode::Read);
        proof {
            assert(mapped is Ok);
        }
        let bytes = match dev.read_mapped(self.output_buffer, fs) {
            Ok(b) => b,
            Err(_) => {
                proof {
                    assert(false);
                }
                return Err(FrameError::SubmissionError);
            },
        };
        proof {
            assert(bytes@ =~= filtered(
                self.kernel.coeffs@,
                inframe@,
                self.width as int,
                self.height as int,
            ));
        }
        *outframe = bytes;
        dev.unmap(self.output_buffer);
        // Re-arm the input buffer for the next frame's write.
        let rearmed = dev.map(self.input_buffer, fs, MapMode::Write);
        proof {
            assert(rearmed is Ok);
        }
        Ok(())
    }
}

} // verus!
