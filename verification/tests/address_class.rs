use k210_lcd::dmac::{is_memory, MemType};

#[test]
fn cached_window_boundaries() {
    assert_eq!(is_memory(0x7fff_ffff), MemType::Peripheral);
    assert_eq!(is_memory(0x8000_0000), MemType::Memory);
    assert_eq!(is_memory(0x805f_ffff), MemType::Memory);
    assert_eq!(is_memory(0x8060_0000), MemType::Peripheral);
}

#[test]
fn uncached_window_boundaries() {
    assert_eq!(is_memory(0x3fff_ffff), MemType::Peripheral);
    assert_eq!(is_memory(0x4000_0000), MemType::Memory);
    assert_eq!(is_memory(0x407f_ffff), MemType::Memory);
    assert_eq!(is_memory(0x4080_0000), MemType::Peripheral);
}

#[test]
fn aliased_address_is_memory() {
    assert_eq!(is_memory(0x5045_003f), MemType::Peripheral);
    assert_eq!(is_memory(0x5045_0040), MemType::Memory);
    assert_eq!(is_memory(0x5045_0041), MemType::Peripheral);
}

#[test]
fn plain_peripherals() {
    assert_eq!(is_memory(0), MemType::Peripheral);
    assert_eq!(is_memory(0x5200_0060), MemType::Peripheral);
    assert_eq!(is_memory(u64::MAX), MemType::Peripheral);
}
