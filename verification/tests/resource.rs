use metal_hal::{Buffer, BufferBinding, BufferSize, UseResourceInfo};

#[test]
fn a_buffer_size_is_not_zero() {
    assert!(BufferSize::new(0).is_none());
    assert_eq!(BufferSize::new(1).unwrap().get(), 1);
    assert_eq!(BufferSize::new(u64::MAX).unwrap().get(), u64::MAX);
}

#[test]
fn a_binding_with_a_size_has_that_size() {
    let buffer = Buffer { raw: (), size: 256 };
    let binding = BufferBinding { buffer: &buffer, offset: 16, size: BufferSize::new(64) };
    assert_eq!(binding.resolve_size(), 64);
}

#[test]
fn the_size_of_a_binding_is_taken_as_it_is() {
    let buffer = Buffer { raw: (), size: 256 };
    let binding = BufferBinding { buffer: &buffer, offset: 1000, size: BufferSize::new(512) };
    assert_eq!(binding.resolve_size(), 512);
}

#[test]
fn a_binding_without_a_size_reaches_the_end() {
    let buffer = Buffer { raw: (), size: 256 };
    let binding = BufferBinding { buffer: &buffer, offset: 16, size: None };
    assert_eq!(binding.resolve_size(), 240);
    assert_eq!(binding.offset + binding.resolve_size(), buffer.size);
    let at_end = BufferBinding { buffer: &buffer, offset: 256, size: None };
    assert_eq!(at_end.resolve_size(), 0);
}

#[test]
fn a_resource_is_not_used_by_default() {
    let info = UseResourceInfo::default();
    assert_eq!(info.uses.bits, 0);
    assert_eq!(info.stages.bits, 0);
    assert!(!info.visible_in_compute);
}
