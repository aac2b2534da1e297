use rgb_core::bus::Bus;
use rgb_core::cpu::CPU;

/// A 32 KiB ROM-only image whose bytes at `0x0100` are `program`, padded with
/// `LD B,B` (0x40), which does nothing.
fn rom_with(program: &[u8]) -> Vec<u8> {
    let mut rom = vec![0x40u8; 0x8000];
    rom[0x0147] = 0x00;
    rom[0x0100..0x0100 + program.len()].copy_from_slice(program);
    rom
}

fn setup(program: &[u8]) -> (CPU, Bus) {
    (CPU::new_post_boot(), Bus::new(rom_with(program), None))
}

#[test]
fn post_boot_registers() {
    let cpu = CPU::new_post_boot();
    assert_eq!(cpu.af(), 0x01B0);
    assert_eq!(cpu.bc(), 0x0013);
    assert_eq!(cpu.de(), 0x00D8);
    assert_eq!(cpu.hl(), 0x014D);
    assert_eq!(cpu.sp, 0xFFFE);
    assert_eq!(cpu.pc, 0x0100);
    assert!(cpu.zero() && !cpu.subtract() && cpu.half_carry() && cpu.carry());
}

#[test]
fn cold_start_is_zero() {
    let cpu = CPU::new();
    assert_eq!((cpu.af(), cpu.bc(), cpu.de(), cpu.hl(), cpu.sp, cpu.pc), (0, 0, 0, 0, 0, 0));
    let d = CPU::default();
    assert_eq!(d.pc, 0);
}

#[test]
fn register_pairs_read_back() {
    let mut cpu = CPU::new();
    cpu.set_bc(0x1234);
    cpu.set_de(0xBEEF);
    cpu.set_hl(0xC0DE);
    cpu.set_af(0x12FF);
    assert_eq!(cpu.bc(), 0x1234);
    assert_eq!((cpu.b, cpu.c), (0x12, 0x34));
    assert_eq!(cpu.de(), 0xBEEF);
    assert_eq!(cpu.hl(), 0xC0DE);
    // The low nibble of F always reads 0.
    assert_eq!(cpu.af(), 0x12F0);
}

#[test]
fn flags_read_back() {
    let mut cpu = CPU::new();
    cpu.set_zero(true);
    cpu.set_carry(true);
    assert_eq!(cpu.f, 0x90);
    assert!(cpu.zero() && cpu.carry() && !cpu.subtract() && !cpu.half_carry());
    cpu.set_zero(false);
    cpu.set_subtract(true);
    cpu.set_half_carry(true);
    assert_eq!(cpu.f, 0x70);
}

#[test]
fn ld_r_n_loads_immediate() {
    // LD B,0x42 ; LD A,0x99
    let (mut cpu, mut bus) = setup(&[0x06, 0x42, 0x3E, 0x99]);
    assert_eq!(cpu.step(&mut bus), 8);
    assert_eq!(cpu.b, 0x42);
    assert_eq!(cpu.pc, 0x0102);
    assert_eq!(cpu.step(&mut bus), 8);
    assert_eq!(cpu.a, 0x99);
}

#[test]
fn ld_hl_indirect_and_increment() {
    // LD HL,0xC000 ; LD (HL),0x5A ; LD A,(HL+) ; LD (HL-),A
    let (mut cpu, mut bus) = setup(&[0x21, 0x00, 0xC0, 0x36, 0x5A, 0x2A, 0x32]);
    assert_eq!(cpu.step(&mut bus), 12);
    assert_eq!(cpu.hl(), 0xC000);
    assert_eq!(cpu.step(&mut bus), 12);
    assert_eq!(bus.read(0xC000), 0x5A);
    assert_eq!(cpu.step(&mut bus), 8);
    assert_eq!(cpu.a, 0x5A);
    assert_eq!(cpu.hl(), 0xC001);
    assert_eq!(cpu.step(&mut bus), 8);
    assert_eq!(bus.read(0xC001), 0x5A);
    assert_eq!(cpu.hl(), 0xC000);
}

#[test]
fn ld_r_r_costs_extra_for_hl() {
    // LD HL,0xC010 ; LD (HL),B ; LD C,(HL) ; LD D,C
    let (mut cpu, mut bus) = setup(&[0x21, 0x10, 0xC0, 0x70, 0x4E, 0x51]);
    cpu.b = 0x77;
    cpu.step(&mut bus);
    assert_eq!(cpu.step(&mut bus), 8);
    assert_eq!(bus.read(0xC010), 0x77);
    assert_eq!(cpu.step(&mut bus), 8);
    assert_eq!(cpu.c, 0x77);
    assert_eq!(cpu.step(&mut bus), 4);
    assert_eq!(cpu.d, 0x77);
}

#[test]
fn push_then_pop_round_trips() {
    // LD BC,0xABCD ; PUSH BC ; POP DE
    let (mut cpu, mut bus) = setup(&[0x01, 0xCD, 0xAB, 0xC5, 0xD1]);
    cpu.step(&mut bus);
    assert_eq!(cpu.step(&mut bus), 16);
    assert_eq!(cpu.sp, 0xFFFC);
    assert_eq!(bus.read(0xFFFD), 0xAB);
    assert_eq!(bus.read(0xFFFC), 0xCD);
    assert_eq!(cpu.step(&mut bus), 12);
    assert_eq!(cpu.de(), 0xABCD);
    assert_eq!(cpu.sp, 0xFFFE);
}

#[test]
fn pop_af_masks_low_nibble() {
    // LD BC,0x12FF ; PUSH BC ; POP AF
    let (mut cpu, mut bus) = setup(&[0x01, 0xFF, 0x12, 0xC5, 0xF1]);
    cpu.step(&mut bus);
    cpu.step(&mut bus);
    cpu.step(&mut bus);
    assert_eq!(cpu.af(), 0x12F0);
}

#[test]
fn ldh_and_ld_c_use_high_page() {
    // LD A,0x3C ; LDH (0x80),A ; LD C,0x80 ; LD A,(C)
    let (mut cpu, mut bus) = setup(&[0x3E, 0x3C, 0xE0, 0x80, 0x0E, 0x80, 0x3E, 0x00, 0xF2]);
    cpu.step(&mut bus);
    assert_eq!(cpu.step(&mut bus), 12);
    assert_eq!(bus.read(0xFF80), 0x3C);
    cpu.step(&mut bus);
    cpu.step(&mut bus);
    assert_eq!(cpu.a, 0x00);
    assert_eq!(cpu.step(&mut bus), 8);
    assert_eq!(cpu.a, 0x3C);
}

#[test]
fn ld_nn_sp_stores_little_endian() {
    // LD SP,0x1234 ; LD (0xC100),SP
    let (mut cpu, mut bus) = setup(&[0x31, 0x34, 0x12, 0x08, 0x00, 0xC1]);
    cpu.step(&mut bus);
    assert_eq!(cpu.step(&mut bus), 20);
    assert_eq!(bus.read(0xC100), 0x34);
    assert_eq!(bus.read(0xC101), 0x12);
}

#[test]
fn ldhl_sp_offset_sets_flags() {
    // LD SP,0x00FF ; LD HL,SP+1
    let (mut cpu, mut bus) = setup(&[0x31, 0xFF, 0x00, 0xF8, 0x01]);
    cpu.step(&mut bus);
    assert_eq!(cpu.step(&mut bus), 12);
    assert_eq!(cpu.hl(), 0x0100);
    assert!(!cpu.zero() && !cpu.subtract() && cpu.half_carry() && cpu.carry());
    // LD SP,0x0010 ; LD HL,SP-2 (0xFE)
    let (mut cpu, mut bus) = setup(&[0x31, 0x10, 0x00, 0xF8, 0xFE]);
    cpu.step(&mut bus);
    cpu.step(&mut bus);
    assert_eq!(cpu.hl(), 0x000E);
    assert!(!cpu.half_carry() && cpu.carry());
}

#[test]
fn interrupt_dispatch_serves_highest_priority() {
    let (mut cpu, mut bus) = setup(&[]);
    cpu.ime = true;
    cpu.halted = true;
    bus.write(0xFFFF, 0x05); // IE: VBlank + Timer
    bus.write(0xFF0F, 0x05); // IF: VBlank + Timer
    assert_eq!(cpu.check_interrupts(&mut bus), Some(20));
    assert_eq!(cpu.pc, 0x0040);
    assert!(!cpu.ime && !cpu.halted);
    assert_eq!(bus.read(0xFF0F), 0x04);
    // The return address was pushed.
    assert_eq!(cpu.sp, 0xFFFC);
    assert_eq!(bus.read(0xFFFD), 0x01);
    assert_eq!(bus.read(0xFFFC), 0x00);
}

#[test]
fn pending_interrupt_without_ime_only_wakes() {
    let (mut cpu, mut bus) = setup(&[]);
    cpu.halted = true;
    bus.write(0xFFFF, 0x10);
    bus.write(0xFF0F, 0x10);
    assert_eq!(cpu.check_interrupts(&mut bus), None);
    assert!(!cpu.halted);
    assert_eq!(cpu.pc, 0x0100);
    assert_eq!(bus.read(0xFF0F), 0x10);
}

#[test]
fn implemented_opcode_table() {
    assert!(CPU::is_implemented(0x06));
    assert!(CPU::is_implemented(0x7F));
    assert!(!CPU::is_implemented(0x76));
    assert!(!CPU::is_implemented(0x00));
    assert!(CPU::is_implemented(0xF1));
    assert!(!CPU::is_implemented(0xC3));
}
