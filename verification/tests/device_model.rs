use wgpu_stage::MemoryError;
use wgpu_stage::device_model::AllocationParams;
use wgpu_stage::device_model::MapMode;
use wgpu_stage::device_model::ModelDevice;

#[test]
fn allocate_sizes_and_flags() {
    let mut dev = ModelDevice::new();
    let h = dev.allocate(10, None).unwrap();
    assert_eq!(h, 0);
    // 10 bytes round up to 12, offset 0, writable.
    assert_eq!(dev.buffers[0].data.len(), 12);
    assert!(!dev.buffers[0].readonly);
    assert_eq!(dev.buffers[0].offset, 0);
    assert_eq!(dev.buffers[0].logical_size, 10);
    assert!(dev.buffers[0].mapped.is_none());

    let params = AllocationParams { prefix: 3, padding: 2, readonly: true };
    let h2 = dev.allocate(10, Some(&params)).unwrap();
    assert_eq!(h2, 1);
    // 3 + 10 + 2 = 15 rounds up to 16.
    assert_eq!(dev.buffers[1].data.len(), 16);
    assert!(dev.buffers[1].readonly);
    assert_eq!(dev.buffers[1].offset, 3);
}

#[test]
fn allocate_overflow_fails() {
    let mut dev = ModelDevice::new();
    let params = AllocationParams { prefix: usize::MAX, padding: 1, readonly: false };
    assert_eq!(dev.allocate(1, Some(&params)), Err(MemoryError::AllocationFailed));
    assert_eq!(dev.buffers.len(), 0);
}

#[test]
fn map_twice_fails_with_already_mapped() {
    let mut dev = ModelDevice::new();
    let h = dev.allocate(64, None).unwrap();
    assert_eq!(dev.map(h, 64, MapMode::Write), Ok(()));
    // A second map without an intervening unmap must fail and must not
    // disturb the first mapping's view.
    assert_eq!(dev.map(h, 64, MapMode::Write), Err(MemoryError::AlreadyMapped));
    assert_eq!(dev.map(h, 16, MapMode::Read), Err(MemoryError::AlreadyMapped));
    assert_eq!(dev.buffers[h].mapped, Some(MapMode::Write));
    // The first mapping still works.
    let bytes: Vec<u8> = (0u8..64).collect();
    assert_eq!(dev.write_mapped(h, &bytes), Ok(()));
    assert_eq!(dev.buffers[h].data[63], 63);
}

#[test]
fn map_errors() {
    let mut dev = ModelDevice::new();
    let h = dev.allocate(64, None).unwrap();
    // Larger than the allocated capacity: refused, not truncated.
    assert_eq!(dev.map(h, 65, MapMode::Write), Err(MemoryError::BufferTooSmall));
    // A writable allocation cannot be mapped for read.
    assert_eq!(dev.map(h, 64, MapMode::Read), Err(MemoryError::MapFailed));
    let ro = AllocationParams { prefix: 0, padding: 0, readonly: true };
    let h2 = dev.allocate(64, Some(&ro)).unwrap();
    // A read-only allocation cannot be mapped for write.
    assert_eq!(dev.map(h2, 64, MapMode::Write), Err(MemoryError::MapFailed));
    assert_eq!(dev.map(h2, 64, MapMode::Read), Ok(()));
}

#[test]
fn round_trip_preserves_content() {
    // Write 64 bytes into a writable allocation, copy them on the device
    // into a fresh read-only allocation, and read them back unchanged.
    let mut dev = ModelDevice::new();
    let src = dev.allocate(64, None).unwrap();
    let data = vec![0xAF_u8; 64];
    assert_eq!(dev.map(src, 64, MapMode::Write), Ok(()));
    assert_eq!(dev.write_mapped(src, &data), Ok(()));
    dev.unmap(src);
    let ro = AllocationParams { prefix: 0, padding: 0, readonly: true };
    let dst = dev.allocate(64, Some(&ro)).unwrap();
    assert_eq!(dev.copy_buffer(src, dst, 64), Ok(()));
    assert_eq!(dev.map(dst, 64, MapMode::Read), Ok(()));
    let got = dev.read_mapped(dst, 64).unwrap();
    assert_eq!(got.as_slice(), &data[..]);
}

#[test]
fn copy_conditions() {
    let mut dev = ModelDevice::new();
    let a = dev.allocate(16, None).unwrap();
    let b = dev.allocate(16, None).unwrap();
    // Copy within one allocation is refused.
    assert!(dev.copy_buffer(a, a, 16).is_err());
    // Copy past either end is refused.
    assert!(dev.copy_buffer(a, b, 17).is_err());
    // Copy with a mapped endpoint is refused.
    assert_eq!(dev.map(a, 16, MapMode::Write), Ok(()));
    assert!(dev.copy_buffer(a, b, 16).is_err());
    dev.unmap(a);
    assert_eq!(dev.copy_buffer(a, b, 16), Ok(()));
}

#[test]
fn unmap_is_idempotent_and_free_releases() {
    let mut dev = ModelDevice::new();
    let h = dev.allocate(8, None).unwrap();
    dev.unmap(h);
    dev.unmap(h);
    assert!(dev.buffers[h].mapped.is_none());
    dev.free(h);
    assert!(dev.buffers[h].freed);
}
