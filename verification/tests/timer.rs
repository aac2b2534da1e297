use rgb_core::Timer;

#[test]
fn div_is_upper_byte_of_counter() {
    let mut t = Timer::new();
    t.step(255);
    assert_eq!(t.read(0xFF04), 0);
    t.step(1);
    assert_eq!(t.read(0xFF04), 1);
    assert_eq!(t.div_counter(), 256);
    t.write(0xFF04, 0x77);
    assert_eq!(t.div_counter(), 0);
    assert_eq!(Timer::default().div_counter(), 0);
}

#[test]
fn counter_wraps_at_16_bits() {
    let mut t = Timer::new();
    t.step(0xFFFF);
    assert_eq!(t.div_counter(), 0xFFFF);
    t.step(2);
    assert_eq!(t.div_counter(), 1);
}

#[test]
fn tima_follows_selected_rate() {
    // TAC = 0x04 | 0b00 → bit 9: one increment per 1024 cycles.
    let mut t = Timer::new();
    t.write(0xFF07, 0x04);
    t.step(1023);
    assert_eq!(t.read(0xFF05), 0);
    t.step(1);
    assert_eq!(t.read(0xFF05), 1);
    // TAC = 0x05 → bit 3: one increment per 16 cycles.
    let mut t = Timer::new();
    t.write(0xFF07, 0x05);
    t.step(160);
    assert_eq!(t.read(0xFF05), 10);
}

#[test]
fn disabled_timer_holds_tima() {
    let mut t = Timer::new();
    t.write(0xFF05, 0x42);
    t.write(0xFF07, 0x03);
    assert!(!t.step(5000));
    assert_eq!(t.read(0xFF05), 0x42);
}

#[test]
fn overflow_reloads_after_four_cycles() {
    let mut t = Timer::new();
    t.write(0xFF06, 0xAB); // TMA
    t.write(0xFF05, 0xFF); // TIMA
    t.write(0xFF07, 0x05);
    // The 16th cycle is a falling edge of bit 3: TIMA overflows to 0.
    assert!(!t.step(16));
    assert_eq!(t.read(0xFF05), 0x00);
    assert!(!t.step(3));
    assert_eq!(t.read(0xFF05), 0x00);
    assert!(t.step(1));
    assert_eq!(t.read(0xFF05), 0xAB);
}

#[test]
fn registers_read_back() {
    let mut t = Timer::new();
    t.write(0xFF05, 0x12);
    t.write(0xFF06, 0x34);
    t.write(0xFF07, 0xFE);
    assert_eq!(t.read(0xFF05), 0x12);
    assert_eq!(t.read(0xFF06), 0x34);
    assert_eq!(t.read(0xFF07), 0x06);
}
