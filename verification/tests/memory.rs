use c64_assembler::memory::{add_offset, ZeroPage};

#[test]
fn zeropage_ends_below_0x0100() {
    assert_eq!(true, 0x0000u16.is_zeropage());
    assert_eq!(true, 0x00FEu16.is_zeropage());
    assert_eq!(true, 0x00FFu16.is_zeropage());
    assert_eq!(false, 0x0100u16.is_zeropage());
    assert_eq!(false, 0x0101u16.is_zeropage());
    assert_eq!(false, 0xFFFFu16.is_zeropage());
}

#[test]
fn low_byte_of_an_address() {
    assert_eq!(0xFE, 0x00FEu16.low());
    assert_eq!(0xFF, 0x00FFu16.low());
    assert_eq!(0x00, 0x0100u16.low());
    assert_eq!(0x01, 0x0101u16.low());
    assert_eq!(0x34, 0x1234u16.low());
}

#[test]
fn high_byte_of_an_address() {
    assert_eq!(0x00, 0x00FEu16.high());
    assert_eq!(0x00, 0x00FFu16.high());
    assert_eq!(0x01, 0x0100u16.high());
    assert_eq!(0x01, 0x0101u16.high());
    assert_eq!(0x12, 0x1234u16.high());
    assert_eq!(0xFF, 0xFFFFu16.high());
}

#[test]
fn low_and_high_byte_make_the_address() {
    for address in [0x0000u16, 0x0001, 0x00FF, 0x0100, 0x7FFF, 0x8000, 0xABCD, 0xFFFF] {
        assert_eq!(address, u16::from_le_bytes([address.low(), address.high()]));
    }
}

#[test]
fn offset_wraps_around() {
    assert_eq!(0x0802, add_offset(0x0800, 2));
    assert_eq!(0xFFFF, add_offset(0xFFFE, 1));
    assert_eq!(0x0000, add_offset(0xFFFF, 1));
    assert_eq!(0x0001, add_offset(0x0002, 0xFFFF));
}
