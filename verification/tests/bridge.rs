use bme680::registry::{fill_prefix, TransportRegistry};
use bme680::sim::SimBus;

#[test]
fn unknown_identifier_fails_write_and_read() {
    let mut registry: TransportRegistry<SimBus> = TransportRegistry::new();
    assert!(!registry.contains(0x76));
    let code = registry.write(0x76, 0xD0, &[1, 2, 3]);
    assert_ne!(code, 0);
    let mut buf = vec![0xAAu8; 4];
    let code = registry.read(0x76, 0xD0, &mut buf, 4);
    assert_ne!(code, 0);
    assert_eq!(buf, vec![0xAAu8; 4]);
}

#[test]
fn registered_identifier_bridges_write() {
    let mut registry: TransportRegistry<SimBus> = TransportRegistry::new();
    registry.register(0x76, SimBus::new(true, None));
    assert!(registry.contains(0x76));
    assert_eq!(registry.write(0x76, 0x74, &[0x25]), 0);
    assert_ne!(registry.write(0x77, 0x74, &[0x25]), 0);
}

#[test]
fn failed_bus_write_reports_nonzero() {
    let mut registry: TransportRegistry<SimBus> = TransportRegistry::new();
    registry.register(0x76, SimBus::new(false, None));
    assert_ne!(registry.write(0x76, 0x74, &[0x25]), 0);
}

#[test]
fn register_replaces_existing_handle() {
    let mut registry: TransportRegistry<SimBus> = TransportRegistry::new();
    registry.register(0x76, SimBus::new(true, None));
    assert_eq!(registry.write(0x76, 0x74, &[0x25]), 0);
    registry.register(0x76, SimBus::new(false, None));
    assert_ne!(registry.write(0x76, 0x74, &[0x25]), 0);
}

#[test]
fn read_truncates_to_available_length() {
    // Requested length 4; the bus answers with 0, 1, 3, 4 and 5 bytes.
    let cases: [(Vec<u8>, Vec<u8>); 5] = [
        (vec![], vec![0xAA, 0xAA, 0xAA, 0xAA]),
        (vec![1], vec![1, 0xAA, 0xAA, 0xAA]),
        (vec![1, 2, 3], vec![1, 2, 3, 0xAA]),
        (vec![1, 2, 3, 4], vec![1, 2, 3, 4]),
        (vec![1, 2, 3, 4, 5], vec![1, 2, 3, 4]),
    ];
    for (answer, expected) in cases {
        let mut registry: TransportRegistry<SimBus> = TransportRegistry::new();
        registry.register(0x76, SimBus::new(true, Some(answer)));
        let mut buf = vec![0xAAu8; 4];
        assert_eq!(registry.read(0x76, 0x1D, &mut buf, 4), 0);
        assert_eq!(buf, expected);
    }
}

#[test]
fn read_never_writes_past_buffer_bound() {
    let mut registry: TransportRegistry<SimBus> = TransportRegistry::new();
    registry.register(0x76, SimBus::new(true, Some(vec![9, 9, 9, 9, 9])));
    let mut buf = vec![0x11u8, 0x22];
    assert_eq!(registry.read(0x76, 0x1D, &mut buf, 4), 0);
    assert_eq!(buf, vec![9u8, 9]);
    assert_eq!(buf.len(), 2);
}

#[test]
fn failed_bus_read_reports_nonzero_and_leaves_buffer() {
    let mut registry: TransportRegistry<SimBus> = TransportRegistry::new();
    registry.register(0x76, SimBus::new(true, None));
    let mut buf = vec![7u8; 3];
    assert_ne!(registry.read(0x76, 0x1D, &mut buf, 3), 0);
    assert_eq!(buf, vec![7u8; 3]);
}

#[test]
fn fill_prefix_truncation_matrix() {
    // Requested length 4 against sources of 0, 1, 3, 4 and 5 bytes.
    let cases: [(Vec<u8>, Vec<u8>); 5] = [
        (vec![], vec![0, 0, 0, 0]),
        (vec![1], vec![1, 0, 0, 0]),
        (vec![1, 2, 3], vec![1, 2, 3, 0]),
        (vec![1, 2, 3, 4], vec![1, 2, 3, 4]),
        (vec![1, 2, 3, 4, 5], vec![1, 2, 3, 4]),
    ];
    for (src, expected) in cases {
        let mut buf = vec![0u8; 4];
        fill_prefix(&mut buf, &src, 4);
        assert_eq!(buf, expected);
    }
    // A request shorter than both source and buffer copies only the request.
    let mut buf = vec![0u8; 4];
    fill_prefix(&mut buf, &[1, 2, 3, 4], 2);
    assert_eq!(buf, vec![1, 2, 0, 0]);
    // A zero-length request copies nothing.
    let mut buf = vec![5u8; 3];
    fill_prefix(&mut buf, &[1, 2, 3], 0);
    assert_eq!(buf, vec![5u8; 3]);
}
