use rgb_core::{EmulationError, GameBoy, JoypadState, StepResult};

/// A ROM-only image whose code at `0x0100` is `program`, followed by
/// `LD B,B` (0x40) to the end of the ROM.
fn rom_with(program: &[u8]) -> Vec<u8> {
    let mut rom = vec![0x40u8; 0x8000];
    rom[0x0134..0x0144].copy_from_slice(b"TEST ROM\0\0\0\0\0\0\0\0");
    rom[0x0147] = 0x00;
    rom[0x0100..0x0100 + program.len()].copy_from_slice(program);
    rom
}

#[test]
fn serial_output_reaches_game_boy() {
    // LD A,'P' (8) ; LDH (0x01),A (12) ; LD A,0x81 (8) ; LDH (0x02),A (12):
    // 40 T-cycles, 10 machine cycles.
    let mut gb = GameBoy::new(rom_with(&[0x3E, b'P', 0xE0, 0x01, 0x3E, 0x81, 0xE0, 0x02]), None);
    let pad = JoypadState::default();
    for _ in 0..10 {
        assert_eq!(gb.step(&pad).unwrap(), StepResult::Continue);
    }
    assert_eq!(gb.serial_output, b"P".to_vec());
}

#[test]
fn frame_completes_after_70224_cycles_of_vblank_timing() {
    // LD SP,0xC000 ; LD A,0x91 ; LDH (0x40),A — turn the LCD on, then run
    // `POP BC` (12 cycles) over the rest of the ROM. The header bytes are
    // chosen to be instructions this CPU executes: a title of `LD r,r`
    // opcodes and cartridge type 0x01 (`LD BC,nn`, an MBC1 cartridge).
    let mut rom = vec![0xC1u8; 0x8000];
    rom[0x0100..0x0107].copy_from_slice(&[0x31, 0x00, 0xC0, 0x3E, 0x91, 0xE0, 0x40]);
    rom[0x0134..0x0144].copy_from_slice(b"ABCDEFGHIJKLMNOP");
    rom[0x0147] = 0x01;
    let mut gb = GameBoy::new(rom, None);
    let pad = JoypadState::default();
    let mut frames = 0;
    let mut steps = 0u64;
    while frames < 2 && steps < 100_000 {
        if gb.step(&pad).unwrap() == StepResult::FrameComplete {
            frames += 1;
            let info = gb.debug_info();
            assert_eq!(info.ly, 144);
            assert_eq!(info.ppu_mode, 1);
            if frames == 2 {
                break;
            }
            let at_first = info.total_cycles;
            let mut next = at_first;
            loop {
                if gb.step(&pad).unwrap() == StepResult::FrameComplete {
                    next = gb.debug_info().total_cycles;
                    break;
                }
            }
            assert_eq!(next - at_first, 70224);
            frames += 1;
        }
        steps += 1;
    }
    assert_eq!(frames, 2);
    // VBlank was requested in IF and the framebuffer is opaque grey.
    assert!(gb.framebuffer().chunks(4).all(|px| px[3] == 0xFF));
}

#[test]
fn unimplemented_opcode_is_an_error() {
    // HALT (0x76) is not executed by this CPU.
    let mut gb = GameBoy::new(rom_with(&[0x76]), None);
    let pad = JoypadState::default();
    match gb.step(&pad) {
        Err(EmulationError::InvalidOpcode(op)) => assert_eq!(op, 0x76),
        other => panic!("expected an error, got {:?}", other),
    }
    // Nothing ran: PC still points at the opcode.
    assert_eq!(gb.debug_info().pc, 0x0100);
}

#[test]
fn debug_info_reports_registers_and_title() {
    let gb = GameBoy::new(rom_with(&[]), None);
    let info = gb.debug_info();
    assert_eq!((info.a, info.f, info.b, info.c), (0x01, 0xB0, 0x00, 0x13));
    assert_eq!((info.sp, info.pc), (0xFFFE, 0x0100));
    assert!(info.flag_z && !info.flag_n && info.flag_h && info.flag_c);
    assert!(!info.ime);
    assert_eq!(info.total_cycles, 0);
    assert_eq!(info.rom_title, "TEST ROM");
    assert_eq!(info.ppu_mode, 2);
}

#[test]
fn each_step_is_one_machine_cycle() {
    // LD A,0x12 (8) ; LD B,A (4) ; LD (0xC000),A (16)
    let mut gb = GameBoy::new(rom_with(&[0x3E, 0x12, 0x47, 0xEA, 0x00, 0xC0]), None);
    let pad = JoypadState::default();
    // The instruction executes on its first machine cycle.
    gb.step(&pad).unwrap();
    assert_eq!(gb.debug_info().total_cycles, 4);
    assert_eq!((gb.debug_info().a, gb.debug_info().pc), (0x12, 0x0102));
    // Its second machine cycle runs no new instruction.
    gb.step(&pad).unwrap();
    assert_eq!(gb.debug_info().total_cycles, 8);
    assert_eq!(gb.debug_info().pc, 0x0102);
    gb.step(&pad).unwrap();
    assert_eq!(gb.debug_info().b, 0x12);
    assert_eq!(gb.debug_info().pc, 0x0103);
    for _ in 0..4 {
        gb.step(&pad).unwrap();
    }
    assert_eq!(gb.debug_info().total_cycles, 28);
    assert_eq!(gb.debug_info().pc, 0x0106);
    // The next step starts the next instruction.
    gb.step(&pad).unwrap();
    assert_eq!(gb.debug_info().pc, 0x0107);
}

#[test]
fn joypad_press_requests_interrupt() {
    // LD A,(0xFF0F) via LDH A,(0x0F)
    let mut gb = GameBoy::new(rom_with(&[0xF0, 0x0F]), None);
    let mut pad = JoypadState::default();
    pad.a = true;
    gb.step(&pad).unwrap();
    assert_eq!(gb.debug_info().a & 0x10, 0x10);
}

#[test]
fn boot_rom_starts_cold_at_zero() {
    let gb = GameBoy::new(rom_with(&[]), Some(vec![0x40u8; 0x100]));
    let info = gb.debug_info();
    assert_eq!((info.pc, info.sp, info.a), (0, 0, 0));
}

#[test]
fn vram_and_bgp_accessors() {
    // LD A,0xE4 ; LDH (0x47),A ; LD A,0x5A ; LD (0x8000),A
    let mut gb = GameBoy::new(rom_with(&[0x3E, 0xE4, 0xE0, 0x47, 0x3E, 0x5A, 0xEA, 0x00, 0x80]), None);
    let pad = JoypadState::default();
    // 8 + 12 + 8 + 16 T-cycles: 11 machine cycles.
    for _ in 0..11 {
        gb.step(&pad).unwrap();
    }
    assert_eq!(gb.bgp(), 0xE4);
    assert_eq!(gb.vram_tiles()[0], 0x5A);
    assert_eq!(gb.vram_tiles().len(), 0x2000);
}

#[test]
fn battery_ram_save_and_restore() {
    let mut rom = rom_with(&[]);
    rom[0x0147] = 0x03; // MBC1 + RAM + battery
    let mut gb = GameBoy::new(rom, None);
    assert_eq!(gb.battery_ram().unwrap().len(), 0x8000);
    gb.load_battery_ram(&[9, 8, 7]);
    assert_eq!(&gb.battery_ram().unwrap()[..3], &[9, 8, 7]);
    let gb2 = GameBoy::new(rom_with(&[]), None);
    assert!(gb2.battery_ram().is_none());
}

#[test]
fn battery_save_round_trips_through_restore() {
    let mut rom = rom_with(&[]);
    rom[0x0147] = 0x03;
    let mut gb = GameBoy::new(rom.clone(), None);
    let save: Vec<u8> = (0..0x8000u32).map(|i| (i % 251) as u8).collect();
    gb.load_battery_ram(&save);
    let saved = gb.battery_ram().unwrap();
    assert_eq!(saved, save);
    let mut gb2 = GameBoy::new(rom, None);
    gb2.load_battery_ram(&saved);
    assert_eq!(gb2.battery_ram().unwrap(), save);
}
