use rgb_core::bus::{Bus, JoypadState};

fn blank_bus() -> Bus {
    Bus::new(vec![0u8; 0x8000], None)
}

#[test]
fn memory_reads_back_writes() {
    let mut bus = blank_bus();
    for &(addr, v) in &[(0x8000u16, 0x11u8), (0x9FFF, 0x22), (0xC000, 0x33), (0xDFFF, 0x44),
        (0xFE00, 0x55), (0xFE9F, 0x66), (0xFF80, 0x77), (0xFFFE, 0x88), (0xFFFF, 0x99)]
    {
        bus.write(addr, v);
        assert_eq!(bus.read(addr), v, "address {:#06X}", addr);
    }
    assert_eq!(bus.ie, 0x99);
}

#[test]
fn echo_ram_mirrors_wram() {
    let mut bus = blank_bus();
    bus.write(0xC123, 0xAB);
    assert_eq!(bus.read(0xE123), 0xAB);
    bus.write(0xFDFF, 0xCD);
    assert_eq!(bus.read(0xDDFF), 0xCD);
}

#[test]
fn unused_region_reads_ff() {
    let mut bus = blank_bus();
    bus.write(0xFEA0, 0x12);
    assert_eq!(bus.read(0xFEA0), 0xFF);
    assert_eq!(bus.read(0xFEFF), 0xFF);
}

#[test]
fn rom_only_reads_image_and_ignores_writes() {
    let mut rom = vec![0u8; 0x8000];
    rom[0x1234] = 0x5A;
    let mut bus = Bus::new(rom, None);
    bus.write(0x1234, 0x00);
    assert_eq!(bus.read(0x1234), 0x5A);
    // No external RAM on a ROM-only cartridge past the image.
    assert_eq!(bus.read(0xA000), 0xFF);
}

#[test]
fn oam_dma_copies_a_page() {
    let mut bus = blank_bus();
    for i in 0..0xA0u16 {
        bus.write(0xC100 + i, i as u8 ^ 0x5A);
    }
    bus.write(0xFF46, 0xC1);
    for i in 0..0xA0u16 {
        assert_eq!(bus.read(0xFE00 + i), i as u8 ^ 0x5A);
    }
    assert_eq!(bus.read(0xFF46), 0xC1);
}

#[test]
fn div_write_resets_counter() {
    let mut bus = blank_bus();
    bus.write(0xFF07, 0xFF);
    assert_eq!(bus.read(0xFF07), 0x07);
    bus.write(0xFF04, 0x12);
    assert_eq!(bus.read(0xFF04), 0);
}

#[test]
fn stat_low_bits_are_read_only_for_the_cpu() {
    let mut bus = blank_bus();
    bus.write_stat_ppu(0x03);
    bus.write(0xFF41, 0xFF);
    assert_eq!(bus.read(0xFF41), 0x7B);
}

#[test]
fn apu_registers_read_open_bus() {
    let mut bus = blank_bus();
    bus.write(0xFF26, 0x80);
    assert_eq!(bus.read(0xFF26), 0xFF);
    assert_eq!(bus.read(0xFF10), 0xFF);
}

#[test]
fn joypad_register_is_active_low() {
    let mut bus = blank_bus();
    let mut pad = JoypadState::default();
    pad.right = true;
    pad.start = true;
    assert!(bus.update_joypad(pad));
    // Nothing newly pressed.
    assert!(!bus.update_joypad(pad));
    bus.write(0xFF00, 0x20); // select the d-pad (bit 4 = 0)
    assert_eq!(bus.read(0xFF00), 0xE0 | 0x0E);
    bus.write(0xFF00, 0x10); // select the buttons (bit 5 = 0)
    assert_eq!(bus.read(0xFF00), 0xD0 | 0x07);
    bus.write(0xFF00, 0x30); // nothing selected
    assert_eq!(bus.read(0xFF00), 0xFF);
}

#[test]
fn serial_transfer_collects_sb() {
    let mut bus = blank_bus();
    let mut out = Vec::new();
    bus.write(0xFF01, b'O');
    bus.write(0xFF02, 0x81);
    bus.write(0xFF01, b'K');
    bus.write(0xFF02, 0x80); // no transfer
    bus.write(0xFF02, 0x81);
    bus.drain_serial(&mut out);
    assert_eq!(out, b"OK".to_vec());
    bus.drain_serial(&mut out);
    assert_eq!(out, b"OK".to_vec());
}

#[test]
fn boot_rom_overlays_until_unmapped() {
    let mut rom = vec![0u8; 0x8000];
    rom[0x0000] = 0xAA;
    rom[0x0100] = 0xBB;
    let boot = vec![0x31u8; 0x100];
    let mut bus = Bus::new(rom, Some(boot));
    assert_eq!(bus.read(0x0000), 0x31);
    assert_eq!(bus.read(0x0100), 0xBB);
    bus.write(0xFF50, 0x01);
    assert_eq!(bus.read(0x0000), 0xAA);
}

#[test]
fn battery_ram_round_trips() {
    let mut rom = vec![0u8; 0x8000];
    rom[0x0147] = 0x03;
    let mut bus = Bus::new(rom, None);
    bus.load_battery_ram(&[1, 2, 3]);
    bus.write(0x0000, 0x0A);
    assert_eq!(bus.read(0xA001), 2);
    assert_eq!(&bus.battery_ram().unwrap()[..4], &[1, 2, 3, 0]);
    let plain = Bus::new(vec![0u8; 0x8000], None);
    assert!(plain.battery_ram().is_none());
}

#[test]
fn timer_steps_through_the_bus() {
    let mut bus = blank_bus();
    bus.write(0xFF07, 0x05); // enabled, bit 3: TIMA every 16 cycles
    assert!(!bus.step_timer(32));
    assert_eq!(bus.read(0xFF05), 2);
    bus.step_apu();
    assert_eq!(bus.vram().len(), 0x2000);
}
