use wgpu_stage::FrameError;
use wgpu_stage::device_model::ModelDevice;
use wgpu_stage::kernel::Kernel3;
use wgpu_stage::kernel::apply_kernel;
use wgpu_stage::pipeline::ComputeFilterPipeline;
use wgpu_stage::pipeline::workgroups_for;

#[test]
fn copy_kernel_is_identity() {
    let k = Kernel3::copy_kernel();
    let frame: Vec<u8> = (0u8..48).collect();
    let out = apply_kernel(&k, &frame, 4, 3);
    assert_eq!(out, frame);
}

#[test]
fn edge_kernel_on_uniform_frame_is_zero() {
    let k = Kernel3::edge_kernel();
    // Every pixel equal: [9, 18, 27, 36] repeated.
    let mut frame: Vec<u8> = Vec::new();
    for _ in 0..16 {
        frame.extend_from_slice(&[9, 18, 27, 36]);
    }
    let out = apply_kernel(&k, &frame, 4, 4);
    assert_eq!(out, vec![0u8; 64]);
}

#[test]
fn edge_kernel_exact_values() {
    let k = Kernel3::edge_kernel();
    // A 2x1 frame: each channel's convolution sums three clamped rows of
    // (right pixel - left pixel), at both pixels.
    let frame: Vec<u8> = vec![10, 20, 30, 40, 12, 24, 36, 48];
    let out = apply_kernel(&k, &frame, 2, 1);
    assert_eq!(out, vec![6, 12, 18, 24, 6, 12, 18, 24]);
}

#[test]
fn workgroup_counts_tile_by_eight() {
    assert_eq!(workgroups_for(1), 1);
    assert_eq!(workgroups_for(8), 1);
    assert_eq!(workgroups_for(9), 2);
    assert_eq!(workgroups_for(64), 8);
    assert_eq!(workgroups_for(65), 9);
}

#[test]
fn pipeline_copy_dispatch_reproduces_frame() {
    let mut dev = ModelDevice::new();
    let p = ComputeFilterPipeline::negotiate(&mut dev, 4, 3, Kernel3::copy_kernel()).unwrap();
    let inframe: Vec<u8> = (0u8..48).collect();
    let mut outframe = vec![0u8; 48];
    p.process_frame(&mut dev, &inframe, &mut outframe).unwrap();
    assert_eq!(outframe, inframe);
}

#[test]
fn pipeline_edge_dispatch_on_uniform_frame_is_zero() {
    let mut dev = ModelDevice::new();
    let p = ComputeFilterPipeline::negotiate(&mut dev, 8, 8, Kernel3::edge_kernel()).unwrap();
    let inframe = vec![0x55u8; 8 * 8 * 4];
    let mut outframe = vec![1u8; 8 * 8 * 4];
    p.process_frame(&mut dev, &inframe, &mut outframe).unwrap();
    assert_eq!(outframe, vec![0u8; 8 * 8 * 4]);
}

#[test]
fn pipeline_processes_frames_in_sequence() {
    // The same staging buffers are reused frame after frame; the second
    // frame's result must not see the first frame's bytes.
    let mut dev = ModelDevice::new();
    let p = ComputeFilterPipeline::negotiate(&mut dev, 2, 2, Kernel3::copy_kernel()).unwrap();
    let first = vec![7u8; 16];
    let second: Vec<u8> = (100u8..116).collect();
    let mut out = vec![0u8; 16];
    p.process_frame(&mut dev, &first, &mut out).unwrap();
    assert_eq!(out, first);
    p.process_frame(&mut dev, &second, &mut out).unwrap();
    assert_eq!(out, second);
}

#[test]
fn pipeline_rejects_mismatched_frame() {
    // The state is only valid for the exact resolution it was built with;
    // a frame of another size fails that frame only.
    let mut dev = ModelDevice::new();
    let p = ComputeFilterPipeline::negotiate(&mut dev, 4, 4, Kernel3::copy_kernel()).unwrap();
    let wrong = vec![0u8; 12];
    let mut out = vec![0u8; 64];
    assert_eq!(p.process_frame(&mut dev, &wrong, &mut out), Err(FrameError::NotNegotiated));
    // And the pipeline still works for the right size afterwards.
    let right = vec![3u8; 64];
    assert_eq!(p.process_frame(&mut dev, &right, &mut out), Ok(()));
    assert_eq!(out, right);
}

#[test]
fn negotiate_rejects_empty_resolution() {
    let mut dev = ModelDevice::new();
    assert!(ComputeFilterPipeline::negotiate(&mut dev, 0, 4, Kernel3::copy_kernel()).is_err());
    assert!(ComputeFilterPipeline::negotiate(&mut dev, 4, 0, Kernel3::copy_kernel()).is_err());
    assert_eq!(dev.buffers.len(), 0);
}

#[test]
fn renegotiation_rebuilds_for_new_resolution() {
    let mut dev = ModelDevice::new();
    let old_pipeline = ComputeFilterPipeline::negotiate(&mut dev, 2, 2, Kernel3::copy_kernel()).unwrap();
    let new_pipeline = ComputeFilterPipeline::negotiate(&mut dev, 4, 2, Kernel3::copy_kernel()).unwrap();
    assert_eq!(old_pipeline.width, 2);
    assert_eq!(new_pipeline.width, 4);
    let frame = vec![9u8; 4 * 2 * 4];
    let mut out = vec![0u8; 4 * 2 * 4];
    new_pipeline.process_frame(&mut dev, &frame, &mut out).unwrap();
    assert_eq!(out, frame);
}
