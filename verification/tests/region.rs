use pseudo_memory::factory::MemoryDescriptor;
use pseudo_memory::factory::MemoryFactory;
use pseudo_memory::region::MAX_PAGES;
use pseudo_memory::region::PseudoMemoryRegion;

#[test]
fn byte_size_and_maximum_are_equal_and_constant() {
    let mut region = PseudoMemoryRegion::new();
    let size = region.byte_size();
    assert_eq!(region.maximum_byte_size(), Some(size));
    assert_eq!(size, MAX_PAGES);
    // growth changes neither
    let _ = region.grow_to(1 << 60);
    assert_eq!(region.byte_size(), size);
    assert_eq!(region.maximum_byte_size(), Some(size));
}

#[test]
fn grow_to_succeeds_for_every_size() {
    let mut region = PseudoMemoryRegion::new();
    assert!(region.grow_to(0).is_ok());
    assert!(region.grow_to(4096).is_ok());
    assert!(region.grow_to(u64::MAX).is_ok());
}

#[test]
fn base_address_is_always_zero() {
    let region = PseudoMemoryRegion::new();
    assert_eq!(region.base_address(), 0);
    let other = PseudoMemoryRegion::new();
    assert_eq!(other.base_address(), 0);
}

#[test]
fn accessible_range_spans_everything() {
    let region = PseudoMemoryRegion::new();
    assert_eq!(region.wasm_accessible(), (0, u64::MAX));
}

#[test]
fn factory_ignores_every_parameter() {
    let factory = MemoryFactory::new();
    let descriptor = MemoryDescriptor {
        minimum_pages: 17,
        maximum_pages: Some(99),
        memory64: false,
        shared: true,
    };
    let region = factory.new_memory(descriptor, 1, Some(2), Some(3), 4);
    assert_eq!(region.byte_size(), MAX_PAGES);
    assert_eq!(region.maximum_byte_size(), Some(MAX_PAGES));
    assert_eq!(region.base_address(), 0);
}
