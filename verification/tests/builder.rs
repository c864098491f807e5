use pseudo_memory::builder::build_guest_module;

/// The guest module, byte for byte: preamble, then the type, function,
/// memory, export and code sections.
fn expected_module_bytes() -> Vec<u8> {
    let mut expected: Vec<u8> = Vec::new();
    // magic and version
    expected.extend_from_slice(&[0x00, 0x61, 0x73, 0x6d, 0x01, 0x00, 0x00, 0x00]);
    // type section: one function type (i64) -> i64
    expected.extend_from_slice(&[0x01, 0x06, 0x01, 0x60, 0x01, 0x7e, 0x01, 0x7e]);
    // function section: one function of type index 0
    expected.extend_from_slice(&[0x03, 0x02, 0x01, 0x00]);
    // memory section: one 64-bit memory, min 2^48 - 1 pages, no maximum
    expected.extend_from_slice(&[
        0x05, 0x09, 0x01, 0x04, 0xff, 0xff, 0xff, 0xff, 0xff, 0xff, 0x3f,
    ]);
    // export section: "memory" as memory 0, "f" as function 0
    expected.extend_from_slice(&[
        0x07, 0x0e, 0x02, 0x06, 0x6d, 0x65, 0x6d, 0x6f, 0x72, 0x79, 0x02, 0x00, 0x01, 0x66,
        0x00, 0x00,
    ]);
    // code section: one body, no locals, fetch-and-increment
    expected.extend_from_slice(&[
        0x0a, 0x15, 0x01, 0x13, 0x00, 0x20, 0x00, 0x20, 0x00, 0x29, 0x03, 0x00, 0x22, 0x00,
        0x42, 0x01, 0x7c, 0x37, 0x03, 0x00, 0x20, 0x00, 0x0b,
    ]);
    expected
}

#[test]
fn module_bytes_are_exactly_the_declared_encoding() {
    assert_eq!(build_guest_module(), expected_module_bytes());
}

#[test]
fn module_starts_with_magic_and_version() {
    let module = build_guest_module();
    assert_eq!(&module[..8], &[0x00, 0x61, 0x73, 0x6d, 0x01, 0x00, 0x00, 0x00]);
}

#[test]
fn export_names_appear_in_the_export_section() {
    let module = build_guest_module();
    let memory_name = b"memory";
    let found = module
        .windows(memory_name.len())
        .any(|w| w == memory_name);
    assert!(found);
}
