use sx126x::endian::{u16_from_be_bytes, u16_from_le_bytes, u16_to_be_bytes, u32_to_be_bytes};

#[test]
fn high_byte_first() {
    assert_eq!(u16_to_be_bytes(0x1234), vec![0x12, 0x34]);
    assert_eq!(u32_to_be_bytes(0x12345678), vec![0x12, 0x34, 0x56, 0x78]);
    assert_eq!(u32_to_be_bytes(u32::MAX), vec![0xFF; 4]);
    assert_eq!(u16_from_be_bytes([0x12, 0x34]), 0x1234);
    assert_eq!(u16_from_be_bytes([0xFF, 0xFF]), 0xFFFF);
    assert_eq!(u16_from_le_bytes([0x12, 0x34]), 0x3412);
}

#[test]
fn every_word_comes_back() {
    for x in 0..=u16::MAX {
        let bytes = u16_to_be_bytes(x);
        assert_eq!(bytes, x.to_be_bytes());
        assert_eq!(u16_from_be_bytes([bytes[0], bytes[1]]), x);
        assert_eq!(u16_from_le_bytes([bytes[1], bytes[0]]), x);
    }
}
