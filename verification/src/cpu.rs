use vstd::prelude::*;

use crate::bus::{Bus, BusState};

verus! {

/// 16-bit value of a register pair with high byte `hi` and low byte `lo`.
pub open spec fn pair(hi: u8, lo: u8) -> u16 {
    (hi as int * 256 + lo as int) as u16
}

/// `x + 1` modulo 2^16.
pub open spec fn inc16(x: u16) -> u16 {
    if x == 0xFFFF {
        0
    } else {
        (x + 1) as u16
    }
}

/// `x - 1` modulo 2^16.
pub open spec fn dec16(x: u16) -> u16 {
    if x == 0 {
        0xFFFF
    } else {
        (x - 1) as u16
    }
}

/// `x + y` modulo 2^16.
pub open spec fn add16(x: u16, y: u16) -> u16 {
    ((x as int + y as int) % 0x10000) as u16
}

/// `f` with the bits of `mask` set when `v` holds and cleared otherwise.
pub open spec fn with_flag(f: u8, mask: u8, v: bool) -> u8 {
    if v {
        f | mask
    } else {
        f & !mask
    }
}

/// Sign extension of an 8-bit offset to 16 bits (two's complement).
pub open spec fn sign_extend(n: u8) -> u16 {
    if n < 0x80 {
        n as u16
    } else {
        (n as int + 0xFF00) as u16
    }
}

/// Opcodes that `CPU::step` executes: 8-bit and 16-bit loads, `LD (nn),SP`,
/// `LD SP,HL`, `LD HL,SP+e`, `PUSH`, `POP` and the `LD r,r'` block without
/// `HALT` (`0x76`).
pub open spec fn implemented_opcode(op: u8) -> bool {
    ||| is_ld_r_n(op)
    ||| op == 0x0A || op == 0x1A || op == 0x02 || op == 0x12
    ||| op == 0x2A || op == 0x3A || op == 0x22 || op == 0x32
    ||| op == 0xFA || op == 0xEA || op == 0xE0 || op == 0xF0 || op == 0xE2 || op == 0xF2
    ||| is_ld_rr_nn(op)
    ||| op == 0x08 || op == 0xF9 || op == 0xF8
    ||| is_push(op)
    ||| is_pop(op)
    ||| (0x40 <= op <= 0x7F && op != 0x76)
}

/// `LD r,n`: `0x06, 0x0E, ..., 0x3E`; the register index is `op / 8`.
pub open spec fn is_ld_r_n(op: u8) -> bool {
    op < 0x40 && op % 8 == 6
}

/// `LD rr,nn`: `0x01, 0x11, 0x21, 0x31` (BC, DE, HL, SP).
pub open spec fn is_ld_rr_nn(op: u8) -> bool {
    op < 0x40 && op % 16 == 1
}

/// `PUSH rr`: `0xC5, 0xD5, 0xE5, 0xF5` (BC, DE, HL, AF).
pub open spec fn is_push(op: u8) -> bool {
    op >= 0xC0 && op % 16 == 5
}

/// `POP rr`: `0xC1, 0xD1, 0xE1, 0xF1` (BC, DE, HL, AF).
pub open spec fn is_pop(op: u8) -> bool {
    op >= 0xC0 && op % 16 == 1
}

/// Sharp SM83 CPU registers.
///
/// The SM83 has eight 8-bit registers (`A`, `F`, `B`, `C`, `D`, `E`, `H`, `L`)
/// that can be paired as 16-bit registers (`AF`, `BC`, `DE`, `HL`), plus the
/// 16-bit `SP` (stack pointer) and `PC` (program counter).
///
/// Flag register (`F`) layout:
/// - Bit 7: Z (Zero)
/// - Bit 6: N (Subtract)
/// - Bit 5: H (Half-carry)
/// - Bit 4: C (Carry)
/// - Bits 3–0: always 0
pub struct CPU {
    pub a: u8,
    pub f: u8,
    pub b: u8,
    pub c: u8,
    pub d: u8,
    pub e: u8,
    pub h: u8,
    pub l: u8,
    pub sp: u16,
    pub pc: u16,
    /// Master interrupt enable flag.
    pub ime: bool,
    /// Set when `HALT` is executed; cleared when an interrupt is pending.
    pub halted: bool,
}

impl CPU {
    pub open spec fn spec_af(self) -> u16 {
        pair(self.a, self.f)
    }

    pub open spec fn spec_bc(self) -> u16 {
        pair(self.b, self.c)
    }

    pub open spec fn spec_de(self) -> u16 {
        pair(self.d, self.e)
    }

    pub open spec fn spec_hl(self) -> u16 {
        pair(self.h, self.l)
    }

    /// Cold-start register state: everything zero, interrupts disabled.
    pub open spec fn spec_cold() -> CPU {
        CPU {
            a: 0,
            f: 0,
            b: 0,
            c: 0,
            d: 0,
            e: 0,
            h: 0,
            l: 0,
            sp: 0,
            pc: 0,
            ime: false,
            halted: false,
        }
    }

    /// DMG register state after the boot ROM: AF = 0x01B0, BC = 0x0013,
    /// DE = 0x00D8, HL = 0x014D, SP = 0xFFFE, PC = 0x0100, interrupts
    /// disabled.
    pub open spec fn spec_post_boot() -> CPU {
        CPU {
            a: 0x01,
            f: 0xB0,
            b: 0x00,
            c: 0x13,
            d: 0x00,
            e: 0xD8,
            h: 0x01,
            l: 0x4D,
            sp: 0xFFFE,
            pc: 0x0100,
            ime: false,
            halted: false,
        }
    }

    /// The CPU with `BC` set to `v`.
    pub open spec fn with_bc(self, v: u16) -> CPU {
        CPU { b: (v / 256) as u8, c: (v % 256) as u8, ..self }
    }

    pub open spec fn with_de(self, v: u16) -> CPU {
        CPU { d: (v / 256) as u8, e: (v % 256) as u8, ..self }
    }

    pub open spec fn with_hl(self, v: u16) -> CPU {
        CPU { h: (v / 256) as u8, l: (v % 256) as u8, ..self }
    }

    /// The CPU with `AF` set to `v`; the low nibble of `F` is always 0.
    pub open spec fn with_af(self, v: u16) -> CPU {
        CPU { a: (v / 256) as u8, f: ((v % 256) as u8) & 0xF0, ..self }
    }

    pub open spec fn with_pc(self, pc: u16) -> CPU {
        CPU { pc, ..self }
    }
}

/// Value of 8-bit operand `idx` in SM83 encoding
/// (0=B, 1=C, 2=D, 3=E, 4=H, 5=L, 6=(HL), 7=A).
pub open spec fn reg8(cpu: CPU, bus: BusState, idx: u8) -> u8 {
    if idx == 0 {
        cpu.b
    } else if idx == 1 {
        cpu.c
    } else if idx == 2 {
        cpu.d
    } else if idx == 3 {
        cpu.e
    } else if idx == 4 {
        cpu.h
    } else if idx == 5 {
        cpu.l
    } else if idx == 6 {
        bus.read(cpu.spec_hl())
    } else {
        cpu.a
    }
}

/// Store `v` into 8-bit operand `idx` (for 6, the byte at `(HL)`).
pub open spec fn set_reg8(cpu: CPU, bus: BusState, idx: u8, v: u8) -> (CPU, BusState) {
    if idx == 0 {
        (CPU { b: v, ..cpu }, bus)
    } else if idx == 1 {
        (CPU { c: v, ..cpu }, bus)
    } else if idx == 2 {
        (CPU { d: v, ..cpu }, bus)
    } else if idx == 3 {
        (CPU { e: v, ..cpu }, bus)
    } else if idx == 4 {
        (CPU { h: v, ..cpu }, bus)
    } else if idx == 5 {
        (CPU { l: v, ..cpu }, bus)
    } else if idx == 6 {
        (cpu, bus.write(cpu.spec_hl(), v))
    } else {
        (CPU { a: v, ..cpu }, bus)
    }
}

/// Immediate byte at `PC`.
pub open spec fn imm8(cpu: CPU, bus: BusState) -> u8 {
    bus.read(cpu.pc)
}

/// Little-endian immediate word at `PC`.
pub open spec fn imm16(cpu: CPU, bus: BusState) -> u16 {
    pair(bus.read(inc16(cpu.pc)), bus.read(cpu.pc))
}

/// Push `v`: the high byte goes to `SP - 1`, the low byte to `SP - 2`.
pub open spec fn push_spec(cpu: CPU, bus: BusState, v: u16) -> (CPU, BusState) {
    let sp = dec16(dec16(cpu.sp));
    (CPU { sp, ..cpu }, bus.write(inc16(sp), (v / 256) as u8).write(sp, (v % 256) as u8))
}

/// Pop a word: low byte from `SP`, high byte from `SP + 1`.
pub open spec fn pop_spec(cpu: CPU, bus: BusState) -> (CPU, u16) {
    (CPU { sp: inc16(inc16(cpu.sp)), ..cpu }, pair(bus.read(inc16(cpu.sp)), bus.read(cpu.sp)))
}

/// Effect of executing opcode `op` whose byte has already been fetched
/// (`cpu.pc` points past it): the new registers, the new bus and the T-cycles
/// taken.
pub open spec fn execute(op: u8, cpu: CPU, bus: BusState) -> (CPU, BusState, u32) {
    if is_ld_r_n(op) {
        let n = imm8(cpu, bus);
        let (c2, b2) = set_reg8(cpu.with_pc(inc16(cpu.pc)), bus, op / 8, n);
        (c2, b2, if op == 0x36 { 12 } else { 8 })
    } else if op == 0x0A {
        (CPU { a: bus.read(cpu.spec_bc()), ..cpu }, bus, 8)
    } else if op == 0x1A {
        (CPU { a: bus.read(cpu.spec_de()), ..cpu }, bus, 8)
    } else if op == 0x02 {
        (cpu, bus.write(cpu.spec_bc(), cpu.a), 8)
    } else if op == 0x12 {
        (cpu, bus.write(cpu.spec_de(), cpu.a), 8)
    } else if op == 0x2A {
        (CPU { a: bus.read(cpu.spec_hl()), ..cpu }.with_hl(inc16(cpu.spec_hl())), bus, 8)
    } else if op == 0x3A {
        (CPU { a: bus.read(cpu.spec_hl()), ..cpu }.with_hl(dec16(cpu.spec_hl())), bus, 8)
    } else if op == 0x22 {
        (cpu.with_hl(inc16(cpu.spec_hl())), bus.write(cpu.spec_hl(), cpu.a), 8)
    } else if op == 0x32 {
        (cpu.with_hl(dec16(cpu.spec_hl())), bus.write(cpu.spec_hl(), cpu.a), 8)
    } else if op == 0xFA {
        let nn = imm16(cpu, bus);
        (CPU { a: bus.read(nn), pc: inc16(inc16(cpu.pc)), ..cpu }, bus, 16)
    } else if op == 0xEA {
        let nn = imm16(cpu, bus);
        (cpu.with_pc(inc16(inc16(cpu.pc))), bus.write(nn, cpu.a), 16)
    } else if op == 0xE0 {
        let n = imm8(cpu, bus);
        (cpu.with_pc(inc16(cpu.pc)), bus.write((0xFF00 + n) as u16, cpu.a), 12)
    } else if op == 0xF0 {
        let n = imm8(cpu, bus);
        (CPU { a: bus.read((0xFF00 + n) as u16), pc: inc16(cpu.pc), ..cpu }, bus, 12)
    } else if op == 0xE2 {
        (cpu, bus.write((0xFF00 + cpu.c) as u16, cpu.a), 8)
    } else if op == 0xF2 {
        (CPU { a: bus.read((0xFF00 + cpu.c) as u16), ..cpu }, bus, 8)
    } else if is_ld_rr_nn(op) {
        let nn = imm16(cpu, bus);
        let c = cpu.with_pc(inc16(inc16(cpu.pc)));
        let idx = op / 16;
        (
            if idx == 0 {
                c.with_bc(nn)
            } else if idx == 1 {
                c.with_de(nn)
            } else if idx == 2 {
                c.with_hl(nn)
            } else {
                CPU { sp: nn, ..c }
            },
            bus,
            12,
        )
    } else if op == 0x08 {
        let nn = imm16(cpu, bus);
        (
            cpu.with_pc(inc16(inc16(cpu.pc))),
            bus.write(nn, (cpu.sp % 256) as u8).write(inc16(nn), (cpu.sp / 256) as u8),
            20,
        )
    } else if op == 0xF9 {
        (CPU { sp: cpu.spec_hl(), ..cpu }, bus, 8)
    } else if op == 0xF8 {
        let e = sign_extend(imm8(cpu, bus));
        let result = add16(cpu.sp, e);
        let f = with_flag(
            with_flag(
                with_flag(with_flag(cpu.f, 0x80, false), 0x40, false),
                0x20,
                (cpu.sp ^ e ^ result) & 0x10 != 0,
            ),
            0x10,
            (cpu.sp ^ e ^ result) & 0x100 != 0,
        );
        (CPU { f, pc: inc16(cpu.pc), ..cpu }.with_hl(result), bus, 12)
    } else if is_push(op) {
        let idx = ((op - 0xC0) / 16) as u8;
        let v = if idx == 0 {
            cpu.spec_bc()
        } else if idx == 1 {
            cpu.spec_de()
        } else if idx == 2 {
            cpu.spec_hl()
        } else {
            cpu.spec_af()
        };
        let (c2, b2) = push_spec(cpu, bus, v);
        (c2, b2, 16)
    } else if is_pop(op) {
        let idx = ((op - 0xC0) / 16) as u8;
        let (c, v) = pop_spec(cpu, bus);
        (
            if idx == 0 {
                c.with_bc(v)
            } else if idx == 1 {
                c.with_de(v)
            } else if idx == 2 {
                c.with_hl(v)
            } else {
                c.with_af(v)
            },
            bus,
            12,
        )
    } else {
        // LD r,r' (0x40–0x7F, HALT excluded)
        let dst = ((op - 0x40) / 8) as u8;
        let src = op % 8;
        let v = reg8(cpu, bus, src);
        let (c2, b2) = set_reg8(cpu, bus, dst, v);
        (c2, b2, (4 + (if src == 6 { 4u32 } else { 0 }) + (if dst == 6 { 4u32 } else { 0 })) as u32)
    }
}

/// One instruction: fetch the opcode at `PC`, advance `PC`, execute.
#[verifier::opaque]
pub open spec fn step_spec(cpu: CPU, bus: BusState) -> (CPU, BusState, u32) {
    execute(bus.read(cpu.pc), cpu.with_pc(inc16(cpu.pc)), bus)
}

/// Every instruction takes whole machine cycles: between 4 and 20
/// T-cycles, a multiple of 4.
pub proof fn lemma_step_cycles(cpu: CPU, bus: BusState)
    ensures
        4 <= step_spec(cpu, bus).2 <= 20,
        step_spec(cpu, bus).2 % 4 == 0,
{
    reveal(step_spec);
}

/// The opcode at `PC` is one that `CPU::step` executes.
pub open spec fn can_step(cpu: CPU, bus: BusState) -> bool {
    implemented_opcode(bus.read(cpu.pc))
}

/// Index of the lowest set bit among the five interrupt bits of `p`
/// (0 = VBlank, 1 = LCD STAT, 2 = Timer, 3 = Serial, 4 = Joypad).
pub open spec fn lowest_interrupt(p: u8) -> u8 {
    if p & 0x01 != 0 {
        0
    } else if p & 0x02 != 0 {
        1
    } else if p & 0x04 != 0 {
        2
    } else if p & 0x08 != 0 {
        3
    } else {
        4
    }
}

/// Interrupts both requested (IF, `0xFF0F`) and enabled (IE, `0xFFFF`).
pub open spec fn pending_interrupts(bus: BusState) -> u8 {
    bus.read(0xFFFF) & bus.read(0xFF0F) & 0x1F
}

/// Interrupt check after an instruction: any pending interrupt wakes the CPU
/// from HALT; with IME set, the lowest pending interrupt is acknowledged in
/// IF, IME is cleared, PC is pushed and execution jumps to its vector
/// (`0x40 + 8 * bit`), taking 20 T-cycles.
#[verifier::opaque]
pub open spec fn interrupt_spec(cpu: CPU, bus: BusState) -> (CPU, BusState, Option<u32>) {
    let pending = pending_interrupts(bus);
    if pending == 0 {
        (cpu, bus, None)
    } else if !cpu.ime {
        (CPU { halted: false, ..cpu }, bus, None)
    } else {
        let bit = lowest_interrupt(pending);
        let b1 = bus.write(0xFF0F, bus.read(0xFF0F) & !(1u8 << bit));
        let (c2, b2) = push_spec(CPU { halted: false, ime: false, ..cpu }, b1, cpu.pc);
        (CPU { pc: (0x40 + 8 * bit) as u16, ..c2 }, b2, Some(20))
    }
}

proof fn lemma_pair_bits(hi: u8, lo: u8)
    ensures
        ((hi as u16) << 8) | (lo as u16) == pair(hi, lo),
{
    assert(((hi as u16) << 8) | (lo as u16) == hi as u16 * 256 + lo as u16) by (bit_vector);
}

proof fn lemma_high_page(n: u8)
    ensures
        0xFF00 | (n as u16) == (0xFF00 + n) as u16,
{
    assert(0xFF00 | (n as u16) == (0xFF00 + n) as u16) by (bit_vector);
}

proof fn lemma_split_bits(v: u16)
    ensures
        (v >> 8) as u8 == v / 256,
        v as u8 == v % 256,
        v / 256 < 256,
{
    assert((v >> 8) as u8 == v / 256 && v as u8 == v % 256 && v / 256 < 256) by (bit_vector);
}

impl CPU {
    /// Create a CPU in the post-boot state (no boot ROM path).
    ///
    /// Matches the documented DMG register values after the boot ROM finishes:
    ///
    /// | Register | Value   |
    /// |----------|---------|
    /// | AF       | `0x01B0`|
    /// | BC       | `0x0013`|
    /// | DE       | `0x00D8`|
    /// | HL       | `0x014D`|
    /// | SP       | `0xFFFE`|
    /// | PC       | `0x0100`|
    ///
    /// Flags: Z=1, N=0, H=1, C=1 (F = 0xB0)
    pub fn new_post_boot() -> (cpu: Self)
        ensures
            cpu == CPU::spec_post_boot(),
            cpu.spec_af() == 0x01B0,
            cpu.spec_bc() == 0x0013,
            cpu.spec_de() == 0x00D8,
            cpu.spec_hl() == 0x014D,
            cpu.sp == 0xFFFE,
            cpu.pc == 0x0100,
            !cpu.ime,
            !cpu.halted,
    {
        CPU {
            a: 0x01,
            f: 0xB0,
            b: 0x00,
            c: 0x13,
            d: 0x00,
            e: 0xD8,
            h: 0x01,
            l: 0x4D,
            sp: 0xFFFE,
            pc: 0x0100,
            ime: false,
            halted: false,
        }
    }

    /// Create a CPU in the cold-start state (boot ROM present).
    ///
    /// All registers are zero-initialised; the boot ROM running from `0x0000`
    /// will set them to their correct values before handing off to the game.
    pub fn new() -> (cpu: Self)
        ensures
            cpu == CPU::spec_cold(),
    {
        CPU {
            a: 0x00,
            f: 0x00,
            b: 0x00,
            c: 0x00,
            d: 0x00,
            e: 0x00,
            h: 0x00,
            l: 0x00,
            sp: 0x0000,
            pc: 0x0000,
            ime: false,
            halted: false,
        }
    }

    // ---------------------------------------------------------------------
    // 16-bit register pair helpers
    // ---------------------------------------------------------------------
    pub fn af(&self) -> (v: u16)
        ensures
            v == self.spec_af(),
    {
        proof {
            lemma_pair_bits(self.a, self.f);
        }
        (self.a as u16) << 8 | (self.f as u16)
    }

    pub fn set_af(&mut self, value: u16)
        ensures
            *final(self) == old(self).with_af(value),
    {
        proof {
            lemma_split_bits(value);
        }
        self.a = (value >> 8) as u8;
        // Low nibble of F is always 0
        self.f = (value as u8) & 0xF0;
    }

    pub fn bc(&self) -> (v: u16)
        ensures
            v == self.spec_bc(),
    {
        proof {
            lemma_pair_bits(self.b, self.c);
        }
        (self.b as u16) << 8 | (self.c as u16)
    }

    pub fn set_bc(&mut self, value: u16)
        ensures
            *final(self) == old(self).with_bc(value),
    {
        proof {
            lemma_split_bits(value);
        }
        self.b = (value >> 8) as u8;
        self.c = value as u8;
    }

    pub fn de(&self) -> (v: u16)
        ensures
            v == self.spec_de(),
    {
        proof {
            lemma_pair_bits(self.d, self.e);
        }
        (self.d as u16) << 8 | (self.e as u16)
    }

    pub fn set_de(&mut self, value: u16)
        ensures
            *final(self) == old(self).with_de(value),
    {
        proof {
            lemma_split_bits(value);
        }
        self.d = (value >> 8) as u8;
        self.e = value as u8;
    }

    pub fn hl(&self) -> (v: u16)
        ensures
            v == self.spec_hl(),
    {
        proof {
            lemma_pair_bits(self.h, self.l);
        }
        (self.h as u16) << 8 | (self.l as u16)
    }

    pub fn set_hl(&mut self, value: u16)
        ensures
            *final(self) == old(self).with_hl(value),
    {
        proof {
            lemma_split_bits(value);
        }
        self.h = (value >> 8) as u8;
        self.l = value as u8;
    }

    // ---------------------------------------------------------------------
    // Flag helpers
    // ---------------------------------------------------------------------
    /// Zero flag (bit 7).
    pub fn zero(&self) -> (r: bool)
        ensures
            r == (self.f & 0x80 != 0),
    {
        self.f & 0x80 != 0
    }

    /// Subtract flag (bit 6).
    pub fn subtract(&self) -> (r: bool)
        ensures
            r == (self.f & 0x40 != 0),
    {
        self.f & 0x40 != 0
    }

    /// Half-carry flag (bit 5).
    pub fn half_carry(&self) -> (r: bool)
        ensures
            r == (self.f & 0x20 != 0),
    {
        self.f & 0x20 != 0
    }

    /// Carry flag (bit 4).
    pub fn carry(&self) -> (r: bool)
        ensures
            r == (self.f & 0x10 != 0),
    {
        self.f & 0x10 != 0
    }

    pub fn set_zero(&mut self, v: bool)
        ensures
            *final(self) == (CPU { f: with_flag(old(self).f, 0x80, v), ..*old(self) }),
    {
        if v {
            self.f |= 0x80;
        } else {
            self.f &= !0x80;
        }
    }

    pub fn set_subtract(&mut self, v: bool)
        ensures
            *final(self) == (CPU { f: with_flag(old(self).f, 0x40, v), ..*old(self) }),
    {
        if v {
            self.f |= 0x40;
        } else {
            self.f &= !0x40;
        }
    }

    pub fn set_half_carry(&mut self, v: bool)
        ensures
            *final(self) == (CPU { f: with_flag(old(self).f, 0x20, v), ..*old(self) }),
    {
        if v {
            self.f |= 0x20;
        } else {
            self.f &= !0x20;
        }
    }

    pub fn set_carry(&mut self, v: bool)
        ensures
            *final(self) == (CPU { f: with_flag(old(self).f, 0x10, v), ..*old(self) }),
    {
        if v {
            self.f |= 0x10;
        } else {
            self.f &= !0x10;
        }
    }

    // ---------------------------------------------------------------------
    // Instruction execution
    // ---------------------------------------------------------------------
    /// Push a 16-bit value onto the stack.
    fn push_u16(&mut self, bus: &mut Bus, value: u16)
        requires
            old(bus).wf(),
        ensures
            (*final(self), final(bus)@) == push_spec(*old(self), old(bus)@, value),
            final(bus).wf(),
    {
        proof {
            lemma_split_bits(value);
        }
        self.sp = self.sp.wrapping_sub(2);
        bus.write(self.sp.wrapping_add(1), (value >> 8) as u8);
        bus.write(self.sp, value as u8);
    }

    /// Pop a 16-bit value from the stack.
    fn pop_u16(&mut self, bus: &Bus) -> (v: u16)
        requires
            bus.wf(),
        ensures
            (*final(self), v) == pop_spec(*old(self), bus@),
    {
        let lo = bus.read(self.sp) as u16;
        let hi = bus.read(self.sp.wrapping_add(1)) as u16;
        self.sp = self.sp.wrapping_add(2);
        proof {
            lemma_pair_bits(hi as u8, lo as u8);
        }
        hi << 8 | lo
    }

    /// Fetch one byte from [PC] and advance PC.
    fn fetch(&mut self, bus: &Bus) -> (b: u8)
        requires
            bus.wf(),
        ensures
            b == imm8(*old(self), bus@),
            *final(self) == old(self).with_pc(inc16(old(self).pc)),
    {
        let b = bus.read(self.pc);
        self.pc = self.pc.wrapping_add(1);
        b
    }

    /// Fetch a little-endian 16-bit word from [PC] and advance PC by 2.
    fn fetch_u16(&mut self, bus: &Bus) -> (w: u16)
        requires
            bus.wf(),
        ensures
            w == imm16(*old(self), bus@),
            *final(self) == old(self).with_pc(inc16(inc16(old(self).pc))),
    {
        let lo = self.fetch(bus) as u16;
        let hi = self.fetch(bus) as u16;
        proof {
            lemma_pair_bits(hi as u8, lo as u8);
        }
        (hi << 8) | lo
    }

    /// Read an 8-bit register by SM83 encoding (0=B,1=C,2=D,3=E,4=H,5=L,6=(HL),7=A).
    ///
    /// Returns the value and the additional T-cycles cost for (HL) reads (4 extra).
    fn read_reg(&self, idx: u8, bus: &Bus) -> (r: (u8, u32))
        requires
            idx <= 7,
            bus.wf(),
        ensures
            r.0 == reg8(*self, bus@, idx),
            r.1 == if idx == 6 { 4u32 } else { 0 },
    {
        match idx {
            0 => (self.b, 0),
            1 => (self.c, 0),
            2 => (self.d, 0),
            3 => (self.e, 0),
            4 => (self.h, 0),
            5 => (self.l, 0),
            6 => (bus.read(self.hl()), 4),
            _ => (self.a, 0),
        }
    }

    /// Write an 8-bit register by SM83 encoding. Returns extra T-cycles for (HL) writes.
    fn write_reg(&mut self, idx: u8, value: u8, bus: &mut Bus) -> (extra: u32)
        requires
            idx <= 7,
            old(bus).wf(),
        ensures
            (*final(self), final(bus)@) == set_reg8(*old(self), old(bus)@, idx, value),
            extra == if idx == 6 { 4u32 } else { 0 },
            final(bus).wf(),
    {
        match idx {
            0 => {
                self.b = value;
                0
            },
            1 => {
                self.c = value;
                0
            },
            2 => {
                self.d = value;
                0
            },
            3 => {
                self.e = value;
                0
            },
            4 => {
                self.h = value;
                0
            },
            5 => {
                self.l = value;
                0
            },
            6 => {
                bus.write(self.hl(), value);
                4
            },
            _ => {
                self.a = value;
                0
            },
        }
    }
}


impl CPU {
    /// Execute one instruction and return the number of T-cycles consumed.
    ///
    /// The opcode at `PC` must be one of the implemented instructions (see
    /// `implemented_opcode`).
    #[verifier::spinoff_prover]
    #[verifier::rlimit(60)]
    pub fn step(&mut self, bus: &mut Bus) -> (cycles: u32)
        requires
            old(bus).wf(),
            can_step(*old(self), old(bus)@),
        ensures
            (*final(self), final(bus)@, cycles) == step_spec(*old(self), old(bus)@),
            final(bus).wf(),
    {
        reveal(step_spec);
        let opcode = self.fetch(bus);
        let ghost cpu1 = *self;
        let ghost bus0 = bus@;
        assert(step_spec(*old(self), old(bus)@) == execute(opcode, cpu1, bus0));
        match opcode {
            // LD r, n — load immediate byte into register
            0x06 => {
                let n = self.fetch(bus);
                self.b = n;
                8
            },
            0x0E => {
                let n = self.fetch(bus);
                self.c = n;
                8
            },
            0x16 => {
                let n = self.fetch(bus);
                self.d = n;
                8
            },
            0x1E => {
                let n = self.fetch(bus);
                self.e = n;
                8
            },
            0x26 => {
                let n = self.fetch(bus);
                self.h = n;
                8
            },
            0x2E => {
                let n = self.fetch(bus);
                self.l = n;
                8
            },
            0x36 => {
                let n = self.fetch(bus);
                let hl = self.hl();
                bus.write(hl, n);
                12
            },
            0x3E => {
                let n = self.fetch(bus);
                self.a = n;
                8
            },
            // LD A, (BC) / LD A, (DE)
            0x0A => {
                let bc = self.bc();
                self.a = bus.read(bc);
                8
            },
            0x1A => {
                let de = self.de();
                self.a = bus.read(de);
                8
            },
            // LD (BC), A / LD (DE), A
            0x02 => {
                let bc = self.bc();
                bus.write(bc, self.a);
                8
            },
            0x12 => {
                let de = self.de();
                bus.write(de, self.a);
                8
            },
            // LD A, (HL+) / LD A, (HL-)
            0x2A => {
                let hl = self.hl();
                self.a = bus.read(hl);
                self.set_hl(hl.wrapping_add(1));
                8
            },
            0x3A => {
                let hl = self.hl();
                self.a = bus.read(hl);
                self.set_hl(hl.wrapping_sub(1));
                8
            },
            // LD (HL+), A / LD (HL-), A
            0x22 => {
                let hl = self.hl();
                bus.write(hl, self.a);
                self.set_hl(hl.wrapping_add(1));
                8
            },
            0x32 => {
                let hl = self.hl();
                bus.write(hl, self.a);
                self.set_hl(hl.wrapping_sub(1));
                8
            },
            // LD A, (nn) / LD (nn), A
            0xFA => {
                let nn = self.fetch_u16(bus);
                self.a = bus.read(nn);
                16
            },
            0xEA => {
                let nn = self.fetch_u16(bus);
                bus.write(nn, self.a);
                16
            },
            // LDH (n), A / LDH A, (n)
            0xE0 => {
                let n = self.fetch(bus);
                proof {
                    lemma_high_page(n);
                }
                bus.write(0xFF00 | n as u16, self.a);
                12
            },
            0xF0 => {
                let n = self.fetch(bus);
                proof {
                    lemma_high_page(n);
                }
                self.a = bus.read(0xFF00 | n as u16);
                12
            },
            // LD (C), A / LD A, (C)
            0xE2 => {
                proof {
                    lemma_high_page(self.c);
                }
                bus.write(0xFF00 | self.c as u16, self.a);
                8
            },
            0xF2 => {
                proof {
                    lemma_high_page(self.c);
                }
                self.a = bus.read(0xFF00 | self.c as u16);
                8
            },
            // LD rr, nn — load immediate 16-bit
            0x01 => {
                let nn = self.fetch_u16(bus);
                self.set_bc(nn);
                12
            },
            0x11 => {
                let nn = self.fetch_u16(bus);
                self.set_de(nn);
                12
            },
            0x21 => {
                let nn = self.fetch_u16(bus);
                self.set_hl(nn);
                12
            },
            0x31 => {
                let nn = self.fetch_u16(bus);
                self.sp = nn;
                12
            },
            // LD (nn), SP
            0x08 => {
                let nn = self.fetch_u16(bus);
                proof {
                    lemma_split_bits(self.sp);
                }
                bus.write(nn, self.sp as u8);
                bus.write(nn.wrapping_add(1), (self.sp >> 8) as u8);
                20
            },
            // LD SP, HL
            0xF9 => {
                self.sp = self.hl();
                8
            },
            // LD HL, SP+e (LDHL SP, e)
            0xF8 => {
                let n = self.fetch(bus);
                // Sign-extend the offset (two's complement).
                let e_u: u16 = if n < 0x80 { n as u16 } else { n as u16 + 0xFF00 };
                let sp_u = self.sp;
                let result = sp_u.wrapping_add(e_u);
                self.set_zero(false);
                self.set_subtract(false);
                self.set_half_carry((sp_u ^ e_u ^ result) & 0x10 != 0);
                self.set_carry((sp_u ^ e_u ^ result) & 0x100 != 0);
                self.set_hl(result);
                12
            },
            // PUSH rr
            0xC5 => {
                let v = self.bc();
                self.push_u16(bus, v);
                16
            },
            0xD5 => {
                let v = self.de();
                self.push_u16(bus, v);
                16
            },
            0xE5 => {
                let v = self.hl();
                self.push_u16(bus, v);
                16
            },
            0xF5 => {
                let v = self.af();
                self.push_u16(bus, v);
                16
            },
            // POP rr
            0xC1 => {
                let v = self.pop_u16(bus);
                self.set_bc(v);
                12
            },
            0xD1 => {
                let v = self.pop_u16(bus);
                self.set_de(v);
                12
            },
            0xE1 => {
                let v = self.pop_u16(bus);
                self.set_hl(v);
                12
            },
            0xF1 => {
                let v = self.pop_u16(bus);
                proof {
                    lemma_split_bits(v);
                }
                self.a = (v >> 8) as u8;
                self.f = (v as u8) & 0xF0;
                12
            },
            // LD r, r' block (0x40–0x7F), HALT (0x76) excluded by the precondition
            0x40..=0x7F => {
                let dst = (opcode >> 3) & 0x07;
                let src = opcode & 0x07;
                proof {
                    assert(dst == (opcode - 0x40) / 8 && src == opcode % 8 && dst <= 7 && src <= 7)
                        by (bit_vector)
                        requires
                            0x40 <= opcode <= 0x7F,
                            dst == (opcode >> 3) & 0x07,
                            src == opcode & 0x07;
                }
                let (value, extra_read) = self.read_reg(src, bus);
                let extra_write = self.write_reg(dst, value, bus);
                4 + extra_read + extra_write
            },
            _ => {
                proof {
                    assert(false);
                }
                0
            },
        }
    }
}

impl CPU {
    /// Check for pending interrupts and dispatch the highest-priority one.
    ///
    /// Returns the T-cycles taken by the dispatch, or `None` when no interrupt
    /// was dispatched.
    pub fn check_interrupts(&mut self, bus: &mut Bus) -> (r: Option<u32>)
        requires
            old(bus).wf(),
        ensures
            (*final(self), final(bus)@, r) == interrupt_spec(*old(self), old(bus)@),
            final(bus).wf(),
    {
        reveal(interrupt_spec);
        let if_val = bus.read(0xFF0F);
        let ie = bus.read(0xFFFF);
        let pending = ie & if_val & 0x1F;
        if pending == 0 {
            return None;
        }
        self.halted = false;
        if !self.ime {
            return None;
        }
        let bit: u8 = if pending & 0x01 != 0 {
            0
        } else if pending & 0x02 != 0 {
            1
        } else if pending & 0x04 != 0 {
            2
        } else if pending & 0x08 != 0 {
            3
        } else {
            4
        };
        bus.write(0xFF0F, if_val & !(1u8 << bit));
        self.ime = false;
        let pc = self.pc;
        self.push_u16(bus, pc);
        self.pc = 0x0040 + (bit as u16) * 8;
        Some(20)
    }
}

impl CPU {
    /// Whether `step` executes `opcode`.
    pub fn is_implemented(opcode: u8) -> (r: bool)
        ensures
            r == implemented_opcode(opcode),
    {
        (opcode < 0x40 && opcode % 8 == 6) || opcode == 0x0A || opcode == 0x1A || opcode == 0x02
            || opcode == 0x12 || opcode == 0x2A || opcode == 0x3A || opcode == 0x22 || opcode
            == 0x32 || opcode == 0xFA || opcode == 0xEA || opcode == 0xE0 || opcode == 0xF0
            || opcode == 0xE2 || opcode == 0xF2 || (opcode < 0x40 && opcode % 16 == 1) || opcode
            == 0x08 || opcode == 0xF9 || opcode == 0xF8 || (opcode >= 0xC0 && opcode % 16 == 5) || (
        opcode >= 0xC0 && opcode % 16 == 1) || (0x40 <= opcode && opcode <= 0x7F && opcode != 0x76)
    }
}

impl Default for CPU {
    fn default() -> (cpu: Self)
        ensures
            cpu == CPU::spec_cold(),
    {
        Self::new()
    }
}

/// Setting a register pair and reading it back gives the value written,
/// except that the low nibble of F always reads 0.
pub proof fn lemma_pair_read_back(cpu: CPU, v: u16)
    ensures
        cpu.with_bc(v).spec_bc() == v,
        cpu.with_de(v).spec_de() == v,
        cpu.with_hl(v).spec_hl() == v,
        cpu.with_af(v).spec_af() == v & 0xFFF0,
{
    lemma_split_bits(v);
    let hi = (v / 256) as u8;
    let lo = ((v % 256) as u8) & 0xF0;
    lemma_pair_bits(hi, lo);
    assert(((((v >> 8) as u8) as u16) << 8) | ((((v as u8) & 0xF0) as u8) as u16) == v & 0xFFF0)
        by (bit_vector);
}

/// Setting a flag and reading it back gives the value written, and no other
/// bit of F changes.
pub proof fn lemma_flag_read_back(f: u8, v: bool)
    ensures
        (with_flag(f, 0x80, v) & 0x80 != 0) == v,
        (with_flag(f, 0x40, v) & 0x40 != 0) == v,
        (with_flag(f, 0x20, v) & 0x20 != 0) == v,
        (with_flag(f, 0x10, v) & 0x10 != 0) == v,
        with_flag(f, 0x80, v) & 0x7F == f & 0x7F,
        with_flag(f, 0x10, v) & 0xEF == f & 0xEF,
{
    assert((f | 0x80) & 0x80 != 0 && (f & !0x80u8) & 0x80 == 0 && (f | 0x80) & 0x7F == f & 0x7F
        && (f & !0x80u8) & 0x7F == f & 0x7F) by (bit_vector);
    assert((f | 0x40) & 0x40 != 0 && (f & !0x40u8) & 0x40 == 0) by (bit_vector);
    assert((f | 0x20) & 0x20 != 0 && (f & !0x20u8) & 0x20 == 0) by (bit_vector);
    assert((f | 0x10) & 0x10 != 0 && (f & !0x10u8) & 0x10 == 0 && (f | 0x10) & 0xEF == f & 0xEF
        && (f & !0x10u8) & 0xEF == f & 0xEF) by (bit_vector);
}

/// The two stack bytes below `sp` lie in WRAM or in HRAM.
pub open spec fn stack_in_ram(sp: u16) -> bool {
    (0xC002 <= sp <= 0xE000) || (0xFF82 <= sp)
}

/// Popping right after pushing gives back the pushed word and the starting
/// stack pointer, when the stack lies in WRAM or HRAM.
pub proof fn lemma_push_pop(cpu: CPU, bus: BusState, v: u16)
    requires
        bus.wf(),
        stack_in_ram(cpu.sp),
    ensures
        ({
            let (c1, b1) = push_spec(cpu, bus, v);
            &&& c1.sp == (cpu.sp - 2) as u16
            &&& pop_spec(c1, b1) == (CPU { sp: cpu.sp, ..c1 }, v)
        }),
{
    reveal(BusState::read);
    reveal(BusState::write);
    lemma_split_bits(v);
    assert(pair((v / 256) as u8, (v % 256) as u8) == v);
}

/// With IME set and several interrupts pending, the one with the lowest bit
/// (highest priority) is served: VBlank before LCD STAT before Timer before
/// Serial before Joypad. The CPU leaves HALT, IME is cleared and execution
/// continues at the interrupt's vector `0x40 + 8 × bit`, with the return
/// address pushed (SP down by two).
pub proof fn lemma_interrupt_dispatch(cpu: CPU, bus: BusState)
    requires
        cpu.ime,
        pending_interrupts(bus) != 0,
    ensures
        ({
            let (c, b, cycles) = interrupt_spec(cpu, bus);
            let bit = lowest_interrupt(pending_interrupts(bus));
            &&& bit <= 4
            &&& pending_interrupts(bus) & (1u8 << bit) != 0
            &&& pending_interrupts(bus) & ((1u8 << bit) - 1) as u8 == 0
            &&& c.pc == 0x40 + 8 * bit
            &&& c.sp == (cpu.sp as int + 0xFFFE) % 0x10000
            &&& !c.ime
            &&& !c.halted
            &&& cycles == Some(20u32)
        }),
{
    reveal(interrupt_spec);
    let p = pending_interrupts(bus);
    assert(p != 0 && p & 0x1F == p ==> (lowest_interrupt(p) <= 4 && p & (1u8 << lowest_interrupt(p)) != 0
        && p & ((1u8 << lowest_interrupt(p)) - 1) as u8 == 0)) by (bit_vector);
    let (ie, iflag) = (bus.read(0xFFFF), bus.read(0xFF0F));
    assert((ie & iflag & 0x1F) & 0x1F == ie & iflag & 0x1F) by (bit_vector);
}

/// Without IME, a pending interrupt only wakes the CPU from HALT; nothing
/// else changes. With no interrupt pending nothing changes at all.
pub proof fn lemma_interrupt_no_dispatch(cpu: CPU, bus: BusState)
    requires
        !cpu.ime || pending_interrupts(bus) == 0,
    ensures
        interrupt_spec(cpu, bus) == (
            if pending_interrupts(bus) == 0 {
                cpu
            } else {
                CPU { halted: false, ..cpu }
            },
            bus,
            None::<u32>,
        ),
{
    reveal(interrupt_spec);
}

/// The eight 8-bit operand slots of the load instructions, by register
/// number: B, C, D, E, H, L, (HL) (not a register; shown as 0) and A.
pub open spec fn register_slots(c: CPU) -> Seq<u8> {
    seq![c.b, c.c, c.d, c.e, c.h, c.l, 0u8, c.a]
}

/// Loads and stores through a register pair: `LD A,(BC)` and `LD A,(DE)`
/// load A from the byte at BC or DE; `LD (BC),A` and `LD (DE),A` store A
/// there; `LD A,(HL+)`, `LD A,(HL-)`, `LD (HL+),A` and `LD (HL-),A` use HL
/// and then step it by one (modulo 2^16). Each takes 8 T-cycles, advances
/// PC by one and changes nothing else.
#[verifier::spinoff_prover]
#[verifier::rlimit(40)]
pub proof fn lemma_pair_indirect_loads(cpu: CPU, bus: BusState)
    ensures
        ({
            let op = bus.read(cpu.pc);
            let (c2, b2, t) = step_spec(cpu, bus);
            let bc = (cpu.b as int * 256 + cpu.c as int) as u16;
            let de = (cpu.d as int * 256 + cpu.e as int) as u16;
            let hl = cpu.h as int * 256 + cpu.l as int;
            let pc1 = ((cpu.pc as int + 1) % 0x10000) as u16;
            &&& op == 0x0A ==> c2 == (CPU { a: bus.read(bc), pc: pc1, ..cpu }) && b2 == bus && t == 8
            &&& op == 0x1A ==> c2 == (CPU { a: bus.read(de), pc: pc1, ..cpu }) && b2 == bus && t == 8
            &&& op == 0x02 ==> c2 == (CPU { pc: pc1, ..cpu }) && b2 == bus.write(bc, cpu.a) && t == 8
            &&& op == 0x12 ==> c2 == (CPU { pc: pc1, ..cpu }) && b2 == bus.write(de, cpu.a) && t == 8
            &&& (op == 0x2A || op == 0x3A) ==> {
                &&& c2.a == bus.read(hl as u16)
                &&& c2.h as int * 256 + c2.l == (if op == 0x2A { (hl + 1) % 0x10000 } else { (hl + 0xFFFF) % 0x10000 })
                &&& c2 == (CPU { a: c2.a, h: c2.h, l: c2.l, pc: pc1, ..cpu })
                &&& b2 == bus
                &&& t == 8
            }
            &&& (op == 0x22 || op == 0x32) ==> {
                &&& b2 == bus.write(hl as u16, cpu.a)
                &&& c2.h as int * 256 + c2.l == (if op == 0x22 { (hl + 1) % 0x10000 } else { (hl + 0xFFFF) % 0x10000 })
                &&& c2 == (CPU { h: c2.h, l: c2.l, pc: pc1, ..cpu })
                &&& t == 8
            }
        }),
{
    reveal(step_spec);
}

/// Loads and stores at a direct address: `LDH (n),A` / `LDH A,(n)` use
/// `0xFF00 + n` with `n` the byte after the opcode (12 T-cycles, PC + 2);
/// `LD (C),A` / `LD A,(C)` use `0xFF00 + C` (8 T-cycles, PC + 1);
/// `LD (nn),A` / `LD A,(nn)` use the little-endian word after the opcode
/// (16 T-cycles, PC + 3).
#[verifier::spinoff_prover]
#[verifier::rlimit(40)]
pub proof fn lemma_direct_loads(cpu: CPU, bus: BusState)
    ensures
        ({
            let op = bus.read(cpu.pc);
            let (c2, b2, t) = step_spec(cpu, bus);
            let pc1 = ((cpu.pc as int + 1) % 0x10000) as u16;
            let pc2 = ((cpu.pc as int + 2) % 0x10000) as u16;
            let pc3 = ((cpu.pc as int + 3) % 0x10000) as u16;
            let n = bus.read(pc1);
            let nn = (bus.read(pc2) as int * 256 + n as int) as u16;
            &&& op == 0xE0 ==> c2 == (CPU { pc: pc2, ..cpu }) && b2 == bus.write((0xFF00 + n) as u16, cpu.a) && t == 12
            &&& op == 0xF0 ==> c2 == (CPU { a: bus.read((0xFF00 + n) as u16), pc: pc2, ..cpu }) && b2 == bus && t == 12
            &&& op == 0xE2 ==> c2 == (CPU { pc: pc1, ..cpu }) && b2 == bus.write((0xFF00 + cpu.c) as u16, cpu.a) && t == 8
            &&& op == 0xF2 ==> c2 == (CPU { a: bus.read((0xFF00 + cpu.c) as u16), pc: pc1, ..cpu }) && b2 == bus && t == 8
            &&& op == 0xEA ==> c2 == (CPU { pc: pc3, ..cpu }) && b2 == bus.write(nn, cpu.a) && t == 16
            &&& op == 0xFA ==> c2 == (CPU { a: bus.read(nn), pc: pc3, ..cpu }) && b2 == bus && t == 16
        }),
{
    reveal(step_spec);
}

/// `LD r,r'` between registers copies source slot `op % 8` into destination
/// slot `(op - 0x40) / 8` in 4 T-cycles; `LD r,n` puts the byte after the
/// opcode into slot `op / 8` in 8 T-cycles. Both advance PC past the
/// instruction and change nothing else (slot 6, `(HL)`, is the memory
/// form, excluded here).
#[verifier::spinoff_prover]
#[verifier::rlimit(40)]
pub proof fn lemma_register_loads(cpu: CPU, bus: BusState)
    ensures
        ({
            let op = bus.read(cpu.pc);
            let (c2, b2, t) = step_spec(cpu, bus);
            let pc1 = ((cpu.pc as int + 1) % 0x10000) as u16;
            let pc2 = ((cpu.pc as int + 2) % 0x10000) as u16;
            let dst: int = (op - 0x40) / 8;
            let src: int = (op % 8) as int;
            &&& 0x40 <= op <= 0x7F && dst != 6 && src != 6 ==> {
                &&& register_slots(c2) == register_slots(cpu).update(dst, register_slots(cpu)[src])
                &&& c2.f == cpu.f && c2.sp == cpu.sp && c2.pc == pc1
                &&& c2.ime == cpu.ime && c2.halted == cpu.halted
                &&& b2 == bus
                &&& t == 4
            }
            &&& op < 0x40 && op % 8 == 6 && op != 0x36 ==> {
                &&& register_slots(c2) == register_slots(cpu).update((op / 8) as int, bus.read(pc1))
                &&& c2.f == cpu.f && c2.sp == cpu.sp && c2.pc == pc2
                &&& c2.ime == cpu.ime && c2.halted == cpu.halted
                &&& b2 == bus
                &&& t == 8
            }
        }),
{
    reveal(step_spec);
    let op = bus.read(cpu.pc);
    let (c2, b2, t) = step_spec(cpu, bus);
    if 0x40 <= op <= 0x7F && (op - 0x40) / 8 != 6 && op % 8 != 6 {
        assert(register_slots(c2) =~= register_slots(cpu).update((op - 0x40) / 8, register_slots(cpu)[(op % 8) as int]));
    }
    if op < 0x40 && op % 8 == 6 && op != 0x36 {
        assert(register_slots(c2) =~= register_slots(cpu).update((op / 8) as int, bus.read(((cpu.pc as int + 1) % 0x10000) as u16)));
    }
}

/// The flag carries of `SP + e` (e sign-extended from the byte `n`) are the
/// carries of the unsigned additions of the low nibble and the low byte.
proof fn lemma_offset_carries(sp: u16, n: u8, e: u16, r: u16)
    by (bit_vector)
    requires
        e == (if n < 0x80 { n as u16 } else { (n as u16) | 0xFF00 }),
        sp as u32 + e as u32 == r as u32 || sp as u32 + e as u32 == r as u32 + 0x10000,
    ensures
        ((sp ^ e ^ r) & 0x10 != 0) == ((sp & 0x0F) as u32 + (n & 0x0F) as u32 > 0x0F),
        ((sp ^ e ^ r) & 0x100 != 0) == ((sp & 0xFF) as u32 + n as u32 > 0xFF),
{
}

/// The 16-bit loads: `LD rr,nn` puts the little-endian word after the opcode
/// into BC, DE, HL or SP (12 T-cycles, PC + 3); `LD (nn),SP` stores SP's low
/// byte at `nn` and its high byte at `nn + 1` (20 T-cycles, PC + 3);
/// `LD SP,HL` copies HL into SP (8 T-cycles, PC + 1).
#[verifier::spinoff_prover]
#[verifier::rlimit(40)]
pub proof fn lemma_wide_loads(cpu: CPU, bus: BusState)
    ensures
        ({
            let op = bus.read(cpu.pc);
            let (c2, b2, t) = step_spec(cpu, bus);
            let pc1 = ((cpu.pc as int + 1) % 0x10000) as u16;
            let pc2 = ((cpu.pc as int + 2) % 0x10000) as u16;
            let pc3 = ((cpu.pc as int + 3) % 0x10000) as u16;
            let n = bus.read(pc1);
            let nn: int = bus.read(pc2) as int * 256 + n as int;
            let hl = cpu.h as int * 256 + cpu.l as int;
            &&& op == 0x01 ==> c2 == (CPU { b: bus.read(pc2), c: n, pc: pc3, ..cpu }) && b2 == bus && t == 12
            &&& op == 0x11 ==> c2 == (CPU { d: bus.read(pc2), e: n, pc: pc3, ..cpu }) && b2 == bus && t == 12
            &&& op == 0x21 ==> c2 == (CPU { h: bus.read(pc2), l: n, pc: pc3, ..cpu }) && b2 == bus && t == 12
            &&& op == 0x31 ==> c2 == (CPU { sp: nn as u16, pc: pc3, ..cpu }) && b2 == bus && t == 12
            &&& op == 0x08 ==> {
                &&& c2 == (CPU { pc: pc3, ..cpu })
                &&& b2 == bus.write(nn as u16, (cpu.sp % 256) as u8).write(((nn + 1) % 0x10000) as u16, (cpu.sp / 256) as u8)
                &&& t == 20
            }
            &&& op == 0xF9 ==> c2 == (CPU { sp: hl as u16, pc: pc1, ..cpu }) && b2 == bus && t == 8
        }),
{
    reveal(step_spec);
}

/// `LD HL,SP+e` puts SP plus the signed byte `e` after the opcode into HL
/// (modulo 2^16), clears Z and N, sets H and C to the carries out of bit 3
/// and bit 7 of the unsigned addition of SP's low byte and `e`, keeps the
/// rest, and takes 12 T-cycles (PC + 2).
#[verifier::spinoff_prover]
#[verifier::rlimit(40)]
pub proof fn lemma_sp_offset_load(cpu: CPU, bus: BusState)
    requires
        bus.read(cpu.pc) == 0xF8,
    ensures
        ({
            let (c2, b2, t) = step_spec(cpu, bus);
            let pc1 = ((cpu.pc as int + 1) % 0x10000) as u16;
            let pc2 = ((cpu.pc as int + 2) % 0x10000) as u16;
            let n = bus.read(pc1);
            let e: int = if n < 0x80 { n as int } else { n as int - 256 };
            &&& c2.h as int * 256 + c2.l == (cpu.sp + e + 0x10000) % 0x10000
            &&& c2.f & 0x80 == 0
            &&& c2.f & 0x40 == 0
            &&& (c2.f & 0x20 != 0) == ((cpu.sp % 16) + (n % 16) > 15)
            &&& (c2.f & 0x10 != 0) == ((cpu.sp % 256) + n > 255)
            &&& c2 == (CPU { f: c2.f, h: c2.h, l: c2.l, pc: pc2, ..cpu })
            &&& b2 == bus
            &&& t == 12
        }),
{
    reveal(step_spec);
    let n = bus.read(((cpu.pc as int + 1) % 0x10000) as u16);
    let e = sign_extend(n);
    let r = add16(cpu.sp, e);
    let sp = cpu.sp;
    assert(e == (if n < 0x80 { n as u16 } else { (n as u16) | 0xFF00 })) by (bit_vector)
        requires
            e == (if n < 0x80 { n as u16 } else { (n as int + 0xFF00) as u16 });
    assert(sp as u32 + e as u32 == r as u32 || sp as u32 + e as u32 == r as u32 + 0x10000);
    lemma_offset_carries(sp, n, e, r);
    assert((sp & 0x0F) as u32 == sp % 16 && (n & 0x0F) as u32 == n % 16 && (sp & 0xFF) as u32 == sp
        % 256) by (bit_vector);
    let f0 = cpu.f;
    let (h, c) = ((sp ^ e ^ r) & 0x10 != 0, (sp ^ e ^ r) & 0x100 != 0);
    let f = with_flag(with_flag(with_flag(with_flag(f0, 0x80, false), 0x40, false), 0x20, h), 0x10, c);
    assert(f & 0x80 == 0 && f & 0x40 == 0 && (f & 0x20 != 0) == h && (f & 0x10 != 0) == c) by (bit_vector)
        requires
            f == (if c {
                (if h { ((f0 & !0x80u8) & !0x40u8) | 0x20u8 } else { ((f0 & !0x80u8) & !0x40u8) & !0x20u8 }) | 0x10u8
            } else {
                (if h { ((f0 & !0x80u8) & !0x40u8) | 0x20u8 } else { ((f0 & !0x80u8) & !0x40u8) & !0x20u8 }) & !0x10u8
            });
}

/// `PUSH rr` stores the high register at `SP − 1` and the low one at
/// `SP − 2` and moves SP down by two (16 T-cycles); `POP rr` loads the low
/// register from `SP` and the high one from `SP + 1` and moves SP up by two
/// (12 T-cycles), with F keeping only its upper four bits. All addresses are
/// modulo 2^16, and PC advances by one.
#[verifier::spinoff_prover]
#[verifier::rlimit(40)]
pub proof fn lemma_stack_ops(cpu: CPU, bus: BusState)
    ensures
        ({
            let op = bus.read(cpu.pc);
            let (c2, b2, t) = step_spec(cpu, bus);
            let pc1 = ((cpu.pc as int + 1) % 0x10000) as u16;
            let down1 = ((cpu.sp as int + 0xFFFF) % 0x10000) as u16;
            let down2 = ((cpu.sp as int + 0xFFFE) % 0x10000) as u16;
            let up1 = ((cpu.sp as int + 1) % 0x10000) as u16;
            let up2 = ((cpu.sp as int + 2) % 0x10000) as u16;
            let lo = bus.read(cpu.sp);
            let hi = bus.read(up1);
            &&& op == 0xC5 ==> c2 == (CPU { sp: down2, pc: pc1, ..cpu }) && b2 == bus.write(down1, cpu.b).write(down2, cpu.c) && t == 16
            &&& op == 0xD5 ==> c2 == (CPU { sp: down2, pc: pc1, ..cpu }) && b2 == bus.write(down1, cpu.d).write(down2, cpu.e) && t == 16
            &&& op == 0xE5 ==> c2 == (CPU { sp: down2, pc: pc1, ..cpu }) && b2 == bus.write(down1, cpu.h).write(down2, cpu.l) && t == 16
            &&& op == 0xF5 ==> c2 == (CPU { sp: down2, pc: pc1, ..cpu }) && b2 == bus.write(down1, cpu.a).write(down2, cpu.f) && t == 16
            &&& op == 0xC1 ==> c2 == (CPU { b: hi, c: lo, sp: up2, pc: pc1, ..cpu }) && b2 == bus && t == 12
            &&& op == 0xD1 ==> c2 == (CPU { d: hi, e: lo, sp: up2, pc: pc1, ..cpu }) && b2 == bus && t == 12
            &&& op == 0xE1 ==> c2 == (CPU { h: hi, l: lo, sp: up2, pc: pc1, ..cpu }) && b2 == bus && t == 12
            &&& op == 0xF1 ==> c2 == (CPU { a: hi, f: lo & 0xF0, sp: up2, pc: pc1, ..cpu }) && b2 == bus && t == 12
        }),
{
    reveal(step_spec);
}

/// The `(HL)` forms: `LD r,(HL)` loads slot `(op − 0x40) / 8` from the byte
/// at HL (8 T-cycles); `LD (HL),r` stores slot `op % 8` at HL (8
/// T-cycles); `LD (HL),n` stores the byte after the opcode at HL (12
/// T-cycles, PC + 2). Nothing else changes.
#[verifier::spinoff_prover]
#[verifier::rlimit(40)]
pub proof fn lemma_hl_memory_loads(cpu: CPU, bus: BusState)
    ensures
        ({
            let op = bus.read(cpu.pc);
            let (c2, b2, t) = step_spec(cpu, bus);
            let pc1 = ((cpu.pc as int + 1) % 0x10000) as u16;
            let pc2 = ((cpu.pc as int + 2) % 0x10000) as u16;
            let hl = (cpu.h as int * 256 + cpu.l as int) as u16;
            let dst: int = (op - 0x40) / 8;
            let src: int = (op % 8) as int;
            &&& 0x40 <= op <= 0x7F && src == 6 && dst != 6 ==> {
                &&& register_slots(c2) == register_slots(cpu).update(dst, bus.read(hl))
                &&& c2.f == cpu.f && c2.sp == cpu.sp && c2.pc == pc1
                &&& c2.ime == cpu.ime && c2.halted == cpu.halted
                &&& b2 == bus
                &&& t == 8
            }
            &&& 0x40 <= op <= 0x7F && dst == 6 && src != 6 ==> {
                &&& c2 == (CPU { pc: pc1, ..cpu })
                &&& b2 == bus.write(hl, register_slots(cpu)[src])
                &&& t == 8
            }
            &&& op == 0x36 ==> c2 == (CPU { pc: pc2, ..cpu }) && b2 == bus.write(hl, bus.read(pc1)) && t == 12
        }),
{
    reveal(step_spec);
    let op = bus.read(cpu.pc);
    let (c2, b2, t) = step_spec(cpu, bus);
    let hl = (cpu.h as int * 256 + cpu.l as int) as u16;
    if 0x40 <= op <= 0x7F && op % 8 == 6 && (op - 0x40) / 8 != 6 {
        assert(register_slots(c2) =~= register_slots(cpu).update((op - 0x40) / 8, bus.read(hl)));
    }
}

} // verus!
