use register_probe::{Register, Width};

#[test]
fn immediate_into_32_bit_alias_reads_back() {
    let mut reg = Register::new(0);
    assert_eq!(reg.store_immediate(Width::W32, 17), 17);
    assert_eq!(reg.read(Width::W32), 17);
}

#[test]
fn host_value_into_64_bit_register_reads_back() {
    let mut reg = Register::new(0);
    let input = 0xff00_0000_0000_0000_u64;
    assert_eq!(reg.store_from_variable(Width::W64, input), input);
    assert_eq!(reg.read(Width::W64), input);
}

#[test]
fn aliases_of_a_64_bit_value() {
    let mut reg = Register::new(0);
    reg.store_immediate(Width::W64, 0x1234_5678_90ab_cdef);
    assert_eq!(reg.read(Width::W64), 0x1234_5678_90ab_cdef);
    assert_eq!(reg.read_subregister(Width::W64, Width::W32), 0x90ab_cdef);
    assert_eq!(reg.read_subregister(Width::W64, Width::W16), 0xcdef);
    assert_eq!(reg.read_subregister(Width::W64, Width::W8), 0xef);
}

#[test]
fn aliases_are_masks_of_the_full_value() {
    let v = 0xfedc_ba98_7654_3210_u64;
    let reg = Register::new(v);
    assert_eq!(reg.read_subregister(Width::W64, Width::W32), v & 0xFFFF_FFFF);
    assert_eq!(reg.read_subregister(Width::W64, Width::W16), v & 0xFFFF);
    assert_eq!(reg.read_subregister(Width::W64, Width::W8), v & 0xFF);
    assert_eq!(reg.read_subregister(Width::W32, Width::W16), v & 0xFFFF);
    assert_eq!(reg.read_subregister(Width::W16, Width::W8), 0x10);
    assert_eq!(reg.read_subregister(Width::W32, Width::W32), 0x7654_3210);
}

#[test]
fn store_immediate_round_trips_at_every_width() {
    let cases = [
        (Width::W8, 0u64),
        (Width::W8, 0xFF),
        (Width::W16, 0xBEEF),
        (Width::W16, 0xFFFF),
        (Width::W32, 0xDEAD_BEEF),
        (Width::W32, 0xFFFF_FFFF),
        (Width::W64, 0),
        (Width::W64, u64::MAX),
    ];
    for (w, v) in cases {
        let mut reg = Register::new(0x5555_5555_5555_5555);
        assert_eq!(reg.store_immediate(w, v), v);
        assert_eq!(reg.read(w), v);
    }
}

#[test]
fn store_from_variable_round_trips_at_every_width() {
    let cases = [
        (Width::W8, 0x7Fu64),
        (Width::W16, 0x8001),
        (Width::W32, 0x8000_0001),
        (Width::W64, 0xfe00_fe00_fe00_fe00),
    ];
    for (w, v) in cases {
        let mut reg = Register::new(u64::MAX);
        assert_eq!(reg.store_from_variable(w, v), v);
        assert_eq!(reg.read(w), v);
    }
}

#[test]
fn rereading_gives_the_same_value() {
    let mut reg = Register::new(0);
    reg.store_from_variable(Width::W64, 0x0102_0304_0506_0708);
    let first = reg.read(Width::W64);
    let second = reg.read(Width::W64);
    let third = reg.read(Width::W64);
    assert_eq!(first, 0x0102_0304_0506_0708);
    assert_eq!(first, second);
    assert_eq!(second, third);
    assert_eq!(reg.read_subregister(Width::W64, Width::W8), reg.read_subregister(Width::W64, Width::W8));
}

#[test]
fn narrow_writes_keep_the_upper_bits() {
    let mut reg = Register::new(0x1122_3344_5566_7788);
    reg.store_immediate(Width::W16, 0xABCD);
    assert_eq!(reg.read(Width::W64), 0x1122_3344_5566_ABCD);
    reg.store_immediate(Width::W8, 0x01);
    assert_eq!(reg.read(Width::W64), 0x1122_3344_5566_AB01);
}

#[test]
fn a_32_bit_write_clears_the_upper_half() {
    let mut reg = Register::new(0x1122_3344_5566_7788);
    reg.store_immediate(Width::W32, 4);
    assert_eq!(reg.read(Width::W64), 4);
}

#[test]
fn width_sizes_and_masks() {
    assert_eq!(Width::W8.bits(), 8);
    assert_eq!(Width::W16.bits(), 16);
    assert_eq!(Width::W32.bits(), 32);
    assert_eq!(Width::W64.bits(), 64);
    assert_eq!(Width::W8.mask(), 0xFF);
    assert_eq!(Width::W16.mask(), 0xFFFF);
    assert_eq!(Width::W32.mask(), 0xFFFF_FFFF);
    assert_eq!(Width::W64.mask(), u64::MAX);
    assert!(Width::W8.holds(0xFF));
    assert!(!Width::W8.holds(0x100));
    assert!(!Width::W32.holds(0x1_0000_0000));
    assert!(Width::W64.holds(u64::MAX));
}
