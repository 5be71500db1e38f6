use chip8::registers::Registers;

#[test]
fn register_set_then_get_round_trip() {
    // Every register index and a spread of values, including the extremes.
    let mut regs = Registers::new();
    for r in 0u8..16 {
        for &v in &[0u8, 1, 0x7F, 0x80, 0xAB, 0xFF] {
            assert_eq!(regs.set_v(r, v), Ok(()));
            assert_eq!(regs.get_v(r), Ok(v));
        }
    }
}

#[test]
fn register_round_trip_all_values() {
    let mut regs = Registers::new();
    for r in 0u8..16 {
        for v in 0u8..=255 {
            regs.set_v(r, v).unwrap();
            assert_eq!(regs.get_v(r).unwrap(), v);
        }
    }
}

#[test]
fn registers_start_zeroed() {
    let regs = Registers::new();
    for r in 0u8..16 {
        assert_eq!(regs.get_v(r), Ok(0));
    }
    assert_eq!(regs.get_index(), 0);
}

#[test]
fn register_index_out_of_range() {
    let mut regs = Registers::new();
    assert_eq!(regs.set_v(16, 1), Err("Invalid register"));
    assert_eq!(regs.get_v(16), Err("Invalid register"));
    assert_eq!(regs.set_v(255, 1), Err("Invalid register"));
    assert_eq!(regs.get_v(255), Err("Invalid register"));
}

#[test]
fn index_register_masked_to_twelve_bits() {
    let mut regs = Registers::new();
    regs.set_index_register(0x0FFF);
    assert_eq!(regs.get_index(), 0x0FFF);
    regs.set_index_register(0x1FFF);
    assert_eq!(regs.get_index(), 0x0FFF);
    regs.set_index_register(0xFFFF);
    assert_eq!(regs.get_index(), 0x0FFF);
    regs.set_index_register(0x1000);
    assert_eq!(regs.get_index(), 0);
}
