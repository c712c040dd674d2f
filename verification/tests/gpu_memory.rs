use wgpu_stage::ContextError;
use wgpu_stage::MemoryError;
use wgpu_stage::PollType;
use wgpu_stage::backend::BackendSelection;
use wgpu_stage::context::AdapterRequirements;
use wgpu_stage::context::DeviceRequirements;
use wgpu_stage::context::WgpuContext;
use wgpu_stage::device_model::AllocationParams;
use wgpu_stage::discovery::wgpu_context_type_tag;
use wgpu_stage::wgpu_memory::WgpuMemoryAllocator;
use wgpu_stage::wgpu_memory::copy_into;
use wgpu_stage::wgpu_memory::transfer_frame;

/// A context on whatever adapter this machine offers, or `None` where the
/// platform has none.
fn test_context() -> Option<WgpuContext> {
    match WgpuContext::new(
        BackendSelection::All,
        &AdapterRequirements::default(),
        &DeviceRequirements::default(),
        PollType::Manual,
        1,
    ) {
        Ok(c) => Some(c),
        Err(_) => None,
    }
}

#[test]
fn create_yields_usable_context_or_documented_error() {
    // Never an unusable-but-non-error context: on success the device and
    // queue are there and the poll mode is the requested one; on failure
    // the error is one of the two documented negotiation errors.
    match WgpuContext::new(
        BackendSelection::All,
        &AdapterRequirements::default(),
        &DeviceRequirements::default(),
        PollType::Manual,
        17,
    ) {
        Ok(ctx) => {
            let _device = ctx.device();
            let _queue = ctx.queue();
            assert!(matches!(ctx.poll_type(), PollType::Manual));
            assert_eq!(ctx.context_id(), 17);
            let token = ctx.as_token(wgpu_context_type_tag());
            assert_eq!(token.ctx_id, 17);
        },
        Err(e) => {
            assert!(
                matches!(e, ContextError::AdapterUnavailable | ContextError::DeviceCreationFailed)
            );
        },
    }
}

#[test]
fn own_context_creation_wraps_a_token() {
    // The self-creation fallback hands back the context together with the
    // token the stage announces; both carry the fresh identity.
    match WgpuContext::create_own_context(
        BackendSelection::All,
        &AdapterRequirements::default(),
        &DeviceRequirements::default(),
        PollType::Threaded,
        23,
        wgpu_context_type_tag(),
    ) {
        Ok((ctx, token)) => {
            assert_eq!(ctx.context_id(), 23);
            assert_eq!(token.ctx_id, 23);
            assert_eq!(token.context_type, wgpu_context_type_tag());
        },
        Err(e) => {
            assert!(
                matches!(e, ContextError::AdapterUnavailable | ContextError::DeviceCreationFailed)
            );
        },
    }
}

#[test]
fn allocate() {
    let Some(context) = test_context() else {
        // No GPU adapter on this machine.
        return;
    };
    let allocator = WgpuMemoryAllocator::new(context);
    let mut mem = allocator.allocate(64, None).unwrap();
    mem.map_write(64).unwrap();
    mem.write_mapped(&vec![0u8; 64]).unwrap();
    mem.unmap();
    allocator.free(mem);
}

#[test]
fn map_is_works() {
    let Some(context) = test_context() else {
        // No GPU adapter on this machine.
        return;
    };
    let allocator = WgpuMemoryAllocator::new(context);
    let mut in_mem = allocator.allocate(64, None).unwrap();

    // data we pass to the GPU
    let data = vec![0xAF_u8; 64];

    in_mem.map_write(64).unwrap();
    assert_eq!(in_mem.size(), 64);
    in_mem.write_mapped(&data).unwrap();
    in_mem.unmap();

    // The buffer should be unmapped now

    let alloc_params = AllocationParams { prefix: 0, padding: 0, readonly: true };
    let mut out_mem = allocator.allocate(64, Some(&alloc_params)).unwrap();

    copy_into(&mut out_mem, &in_mem, 64).unwrap();

    out_mem.map_read(64).unwrap();
    let map = out_mem.read_mapped(64).unwrap();
    assert_eq!(map.as_slice(), &data[..]);
    out_mem.unmap();
}

#[test]
fn transfer_frame_round_trips_bytes() {
    let Some(context) = test_context() else {
        return;
    };
    let allocator = WgpuMemoryAllocator::new(context);
    let mut input = allocator.allocate(128, None).unwrap();
    let ro = AllocationParams { prefix: 0, padding: 0, readonly: true };
    let mut output = allocator.allocate(128, Some(&ro)).unwrap();
    let frame: Vec<u8> = (0u8..128).collect();
    let got = transfer_frame(&mut input, &mut output, &frame).unwrap();
    assert_eq!(got, frame);
    // Both allocations are unmapped again: a second frame goes through.
    let frame2: Vec<u8> = (100u8..228).collect();
    let got2 = transfer_frame(&mut input, &mut output, &frame2).unwrap();
    assert_eq!(got2, frame2);
}

#[test]
fn second_map_fails_without_disturbing_the_first() {
    let Some(context) = test_context() else {
        return;
    };
    let allocator = WgpuMemoryAllocator::new(context);
    let mut mem = allocator.allocate(64, None).unwrap();
    mem.map_write(64).unwrap();
    assert_eq!(mem.map_write(64), Err(MemoryError::AlreadyMapped));
    assert_eq!(mem.map_read(64), Err(MemoryError::AlreadyMapped));
    // The first mapping's view still accepts the frame bytes.
    assert!(mem.is_mapped());
    mem.write_mapped(&vec![1u8; 64]).unwrap();
    mem.unmap();
}

#[test]
fn copy_requires_matching_usages() {
    let Some(context) = test_context() else {
        return;
    };
    let allocator = WgpuMemoryAllocator::new(context);
    let mut writable = allocator.allocate(64, None).unwrap();
    let ro = AllocationParams { prefix: 0, padding: 0, readonly: true };
    let readable = allocator.allocate(64, Some(&ro)).unwrap();
    // A copy out of a read-only allocation, or into a writable one, is
    // refused before anything is submitted.
    assert_eq!(copy_into(&mut writable, &readable, 64), Err(MemoryError::MapFailed));
}

#[test]
fn allocation_beyond_the_device_limit_fails() {
    let Some(context) = test_context() else {
        return;
    };
    assert_eq!(context.max_buffer_size(), 268435456);
    let allocator = WgpuMemoryAllocator::new(context);
    // One byte over the device's largest allowed buffer: refused without
    // creating anything.
    assert!(matches!(allocator.allocate(268435457, None), Err(MemoryError::AllocationFailed)));
}

#[test]
fn allocation_arithmetic_is_checked() {
    let Some(context) = test_context() else {
        return;
    };
    let allocator = WgpuMemoryAllocator::new(context);
    let params = AllocationParams { prefix: usize::MAX, padding: 1, readonly: false };
    assert!(matches!(allocator.allocate(1, Some(&params)), Err(MemoryError::AllocationFailed)));
    // Physical size: 3 + 10 + 2 = 15 rounds up to 16; the logical size and
    // prefix are kept.
    let params = AllocationParams { prefix: 3, padding: 2, readonly: false };
    let mem = allocator.allocate(10, Some(&params)).unwrap();
    assert_eq!(mem.size(), 16);
    assert_eq!(mem.offset(), 3);
    assert_eq!(mem.logical_size(), 10);
    assert!(!mem.readonly());
    allocator.free(mem);
}
