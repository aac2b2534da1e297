use vstd::prelude::*;

use crate::apu::{APU, APUState};
use crate::mbc::{self, Cartridge, CartridgeState, Mbc};
use crate::timer::{Timer, TimerState};

verus! {

pub const VRAM_SIZE: usize = 0x2000;
pub const WRAM_SIZE: usize = 0x2000;
pub const OAM_SIZE: usize = 0xA0;
pub const IO_SIZE: usize = 0x80;
pub const HRAM_SIZE: usize = 0x7F;

/// State of the eight joypad buttons; `true` means pressed.
#[derive(Clone, Copy, Debug, Default, PartialEq, Eq)]
pub struct JoypadState {
    pub up: bool,
    pub down: bool,
    pub left: bool,
    pub right: bool,
    pub a: bool,
    pub b: bool,
    pub start: bool,
    pub select: bool,
}

/// Low nibble of the d-pad lines: Right, Left, Up, Down in bits 0–3
/// (set = pressed).
pub open spec fn dpad_bits(j: JoypadState) -> u8 {
    (if j.right { 1u8 } else { 0 }) | (if j.left { 2u8 } else { 0 }) | (if j.up { 4u8 } else { 0 })
        | (if j.down { 8u8 } else { 0 })
}

/// Low nibble of the action-button lines: A, B, Select, Start in bits 0–3
/// (set = pressed).
pub open spec fn button_bits(j: JoypadState) -> u8 {
    (if j.a { 1u8 } else { 0 }) | (if j.b { 2u8 } else { 0 }) | (if j.select { 4u8 } else { 0 })
        | (if j.start { 8u8 } else { 0 })
}

/// Value read from JOYP (`0xFF00`): bits 7–6 read as 1, bits 5–4 are the
/// select lines last written (0 = group selected), bits 3–0 are the selected
/// button lines, active low.
pub open spec fn joypad_register(select: u8, j: JoypadState) -> u8 {
    let pressed: u8 = (if select & 0x10 == 0 { dpad_bits(j) } else { 0 }) | (if select & 0x20 == 0 {
        button_bits(j)
    } else {
        0
    });
    0xC0 | (select & 0x30) | (0x0F & !pressed)
}

/// Some button is pressed in `new` that was not pressed in `old`.
pub open spec fn newly_pressed(old: JoypadState, new: JoypadState) -> bool {
    ||| !old.up && new.up
    ||| !old.down && new.down
    ||| !old.left && new.left
    ||| !old.right && new.right
    ||| !old.a && new.a
    ||| !old.b && new.b
    ||| !old.start && new.start
    ||| !old.select && new.select
}

/// Abstract state of the memory bus and everything mapped into it.
#[verifier::ext_equal]
pub struct BusState {
    pub cart: CartridgeState,
    pub boot_rom: Option<Seq<u8>>,
    /// The boot ROM overlays `0x0000–0x00FF` until `0xFF50` is written.
    pub boot_rom_active: bool,
    pub vram: Seq<u8>,
    pub wram: Seq<u8>,
    pub oam: Seq<u8>,
    pub io: Seq<u8>,
    pub hram: Seq<u8>,
    pub ie: u8,
    pub timer: TimerState,
    pub apu: APUState,
    pub joypad: JoypadState,
    pub serial_output: Seq<u8>,
}

/// Source address of byte `i` of an OAM DMA started by writing `value` to
/// `0xFF46`.
pub open spec fn dma_source(value: u8, i: int) -> u16 {
    (value as int * 0x100 + i) as u16
}

impl BusState {
    pub open spec fn wf(self) -> bool {
        &&& self.vram.len() == VRAM_SIZE
        &&& self.wram.len() == WRAM_SIZE
        &&& self.oam.len() == OAM_SIZE
        &&& self.io.len() == IO_SIZE
        &&& self.hram.len() == HRAM_SIZE
        &&& self.cart.wf()
        &&& self.timer.wf()
        &&& self.apu.wf()
    }

    #[verifier::opaque]
    pub open spec fn read(self, addr: u16) -> u8 {
        if addr <= 0x00FF && self.boot_rom_active && self.boot_rom is Some && addr
            < self.boot_rom->Some_0.len() {
            self.boot_rom->Some_0[addr as int]
        } else if addr <= 0x7FFF {
            self.cart.read(addr)
        } else if addr <= 0x9FFF {
            self.vram[addr - 0x8000]
        } else if addr <= 0xBFFF {
            self.cart.read(addr)
        } else if addr <= 0xDFFF {
            self.wram[addr - 0xC000]
        } else if addr <= 0xFDFF {
            // Echo RAM mirrors 0xC000–0xDDFF.
            self.wram[addr - 0xE000]
        } else if addr <= 0xFE9F {
            self.oam[addr - 0xFE00]
        } else if addr <= 0xFEFF {
            0xFF
        } else if addr == 0xFF00 {
            joypad_register(self.io[0], self.joypad)
        } else if crate::timer::is_timer_addr(addr) {
            self.timer.read(addr)
        } else if 0xFF10 <= addr <= 0xFF3F {
            0xFF
        } else if addr <= 0xFF7F {
            self.io[addr - 0xFF00]
        } else if addr <= 0xFFFE {
            self.hram[addr - 0xFF80]
        } else {
            self.ie
        }
    }

    pub open spec fn set_io(self, addr: u16, value: u8) -> BusState {
        BusState { io: self.io.update(addr - 0xFF00, value), ..self }
    }

    /// OAM after a DMA transfer from page `value` in state `self`.
    pub open spec fn dma_oam(self, value: u8) -> Seq<u8> {
        Seq::new(OAM_SIZE as nat, |i: int| self.read(dma_source(value, i)))
    }

    #[verifier::opaque]
    pub open spec fn write(self, addr: u16, value: u8) -> BusState {
        if addr <= 0x7FFF {
            BusState { cart: self.cart.write(addr, value), ..self }
        } else if addr <= 0x9FFF {
            BusState { vram: self.vram.update(addr - 0x8000, value), ..self }
        } else if addr <= 0xBFFF {
            BusState { cart: self.cart.write(addr, value), ..self }
        } else if addr <= 0xDFFF {
            BusState { wram: self.wram.update(addr - 0xC000, value), ..self }
        } else if addr <= 0xFDFF {
            BusState { wram: self.wram.update(addr - 0xE000, value), ..self }
        } else if addr <= 0xFE9F {
            BusState { oam: self.oam.update(addr - 0xFE00, value), ..self }
        } else if addr <= 0xFEFF {
            self
        } else if addr == 0xFF00 {
            // Only the select lines (bits 5–4) are writable.
            self.set_io(addr, value & 0x30)
        } else if addr == 0xFF02 {
            // Serial: a transfer request with the internal clock (0x81) sends SB.
            let s = self.set_io(addr, value);
            if value == 0x81 {
                BusState { serial_output: s.serial_output.push(self.io[0x01]), ..s }
            } else {
                s
            }
        } else if crate::timer::is_timer_addr(addr) {
            BusState { timer: self.timer.write(addr, value), ..self }
        } else if 0xFF10 <= addr <= 0xFF3F {
            self
        } else if addr == 0xFF41 {
            // STAT bits 0–2 are read-only for the CPU.
            self.set_io(addr, (value & 0x78) | (self.io[0x41] & 0x07))
        } else if addr == 0xFF46 {
            let s = self.set_io(addr, value);
            BusState { oam: s.dma_oam(value), ..s }
        } else if addr == 0xFF50 {
            let s = self.set_io(addr, value);
            BusState { boot_rom_active: self.boot_rom_active && value == 0, ..s }
        } else if addr <= 0xFF7F {
            self.set_io(addr, value)
        } else if addr <= 0xFFFE {
            BusState { hram: self.hram.update(addr - 0xFF80, value), ..self }
        } else {
            BusState { ie: value, ..self }
        }
    }
}

/// The contents of an optional byte vector.
pub open spec fn bytes_view(v: Option<Vec<u8>>) -> Option<Seq<u8>> {
    match v {
        Some(b) => Some(b@),
        None => None,
    }
}

/// Post-construction state of a bus for the given ROM and boot ROM images.
pub open spec fn initial_bus(rom: Seq<u8>, boot_rom: Option<Seq<u8>>) -> BusState {
    BusState {
        cart: mbc::cartridge_for(rom),
        boot_rom,
        boot_rom_active: boot_rom is Some,
        vram: Seq::new(VRAM_SIZE as nat, |i: int| 0u8),
        wram: Seq::new(WRAM_SIZE as nat, |i: int| 0u8),
        oam: Seq::new(OAM_SIZE as nat, |i: int| 0u8),
        io: Seq::new(IO_SIZE as nat, |i: int| 0u8),
        hram: Seq::new(HRAM_SIZE as nat, |i: int| 0u8),
        ie: 0,
        timer: TimerState { counter: 0, tima: 0, tma: 0, tac: 0, overflow_delay: 0 },
        apu: APUState { frame_seq_step: 0, last_div_bit: false },
        joypad: JoypadState {
            up: false,
            down: false,
            left: false,
            right: false,
            a: false,
            b: false,
            start: false,
            select: false,
        },
        serial_output: Seq::empty(),
    }
}

/// DMG memory bus.
///
/// Owns all addressable memory regions and dispatches reads/writes via
/// address ranges, matching the hardware memory map.
///
/// # Memory Map
///
/// | Range           | Region           | Notes                        |
/// |-----------------|------------------|------------------------------|
/// | `0x0000–0x3FFF` | ROM Bank 0       | Fixed                        |
/// | `0x4000–0x7FFF` | ROM Bank N       | Switchable via MBC           |
/// | `0x8000–0x9FFF` | VRAM             | 8 KiB                        |
/// | `0xA000–0xBFFF` | External RAM     | MBC-controlled               |
/// | `0xC000–0xDFFF` | WRAM             | 8 KiB                        |
/// | `0xE000–0xFDFF` | Echo RAM         | Mirrors `0xC000–0xDDFF`      |
/// | `0xFE00–0xFE9F` | OAM              | 40 sprites × 4 bytes         |
/// | `0xFEA0–0xFEFF` | Unused           | Reads return `0xFF`          |
/// | `0xFF00–0xFF7F` | IO Registers     | 128 bytes                    |
/// | `0xFF80–0xFFFE` | HRAM             | 127 bytes                    |
/// | `0xFFFF`        | IE Register      | Interrupt Enable             |
pub struct Bus {
    cartridge: Cartridge,
    boot_rom: Option<Vec<u8>>,
    boot_rom_active: bool,
    vram: Vec<u8>,
    wram: Vec<u8>,
    oam: Vec<u8>,
    io: Vec<u8>,
    hram: Vec<u8>,
    /// `0xFFFF` — Interrupt Enable
    pub ie: u8,
    timer: Timer,
    apu: APU,
    joypad: JoypadState,
    /// Bytes sent through the serial port, not yet collected.
    serial_output: Vec<u8>,
}

impl View for Bus {
    type V = BusState;

    closed spec fn view(&self) -> BusState {
        BusState {
            cart: self.cartridge@,
            boot_rom: match self.boot_rom {
                Some(b) => Some(b@),
                None => None,
            },
            boot_rom_active: self.boot_rom_active,
            vram: self.vram@,
            wram: self.wram@,
            oam: self.oam@,
            io: self.io@,
            hram: self.hram@,
            ie: self.ie,
            timer: self.timer@,
            apu: self.apu@,
            joypad: self.joypad,
            serial_output: self.serial_output@,
        }
    }
}

/// Two bus states that differ at most in OAM bytes `j < i` read the same
/// at every address other than those OAM bytes.
proof fn lemma_read_outside_oam_prefix(a: BusState, b: BusState, i: int, addr: u16)
    requires
        a == (BusState { oam: a.oam, ..b }),
        a.oam.len() == b.oam.len(),
        a.oam.len() == OAM_SIZE,
        forall|j: int| i <= j < a.oam.len() ==> a.oam[j] == b.oam[j],
        0 <= i,
        !(0xFE00 <= addr < 0xFE00 + i),
    ensures
        a.read(addr) == b.read(addr),
{
    reveal(BusState::read);
    if 0xFE00 <= addr <= 0xFE9F {
        assert(a.oam[addr - 0xFE00] == b.oam[addr - 0xFE00]);
    }
}

impl Bus {
    /// The bus state is well formed: what every bus law requires.
    pub open spec fn wf(&self) -> bool {
        self@.wf()
    }

    /// Create a new Bus from a ROM image and an optional boot ROM.
    /// The MBC type is detected from header byte `0x0147`.
    pub fn new(rom: Vec<u8>, boot_rom: Option<Vec<u8>>) -> (b: Self)
        requires
            mbc::supported_mbc_type(mbc::mbc_type_of(rom@)),
        ensures
            b@ == initial_bus(rom@, bytes_view(boot_rom)),
            b.wf(),
    {
        let active = boot_rom.is_some();
        let b = Bus {
            cartridge: mbc::from_rom(rom),
            boot_rom,
            boot_rom_active: active,
            vram: vec![0u8; VRAM_SIZE],
            wram: vec![0u8; WRAM_SIZE],
            oam: vec![0u8; OAM_SIZE],
            io: vec![0u8; IO_SIZE],
            hram: vec![0u8; HRAM_SIZE],
            ie: 0x00,
            timer: Timer::new(),
            apu: APU::new(),
            joypad: JoypadState {
                up: false,
                down: false,
                left: false,
                right: false,
                a: false,
                b: false,
                start: false,
                select: false,
            },
            serial_output: Vec::new(),
        };
        proof {
            let init = initial_bus(rom@, b@.boot_rom);
            assert(b@.vram =~= init.vram);
            assert(b@.wram =~= init.wram);
            assert(b@.oam =~= init.oam);
            assert(b@.io =~= init.io);
            assert(b@.hram =~= init.hram);
            assert(b@.serial_output =~= init.serial_output);
        }
        b
    }

    /// Read a byte from the given address.
    pub fn read(&self, addr: u16) -> (r: u8)
        requires
            self.wf(),
        ensures
            r == self@.read(addr),
    {
        reveal(BusState::read);
        if addr <= 0x00FF && self.boot_rom_active {
            if let Some(boot) = &self.boot_rom {
                if (addr as usize) < boot.len() {
                    return boot[addr as usize];
                }
            }
        }
        if addr <= 0x7FFF {
            self.cartridge.read(addr)
        } else if addr <= 0x9FFF {
            self.vram[(addr - 0x8000) as usize]
        } else if addr <= 0xBFFF {
            self.cartridge.read(addr)
        } else if addr <= 0xDFFF {
            self.wram[(addr - 0xC000) as usize]
        } else if addr <= 0xFDFF {
            self.wram[(addr - 0xE000) as usize]
        } else if addr <= 0xFE9F {
            self.oam[(addr - 0xFE00) as usize]
        } else if addr <= 0xFEFF {
            0xFF
        } else if addr == 0xFF00 {
            self.joypad_register()
        } else if 0xFF04 <= addr && addr <= 0xFF07 {
            self.timer.read(addr)
        } else if 0xFF10 <= addr && addr <= 0xFF3F {
            self.apu.read(addr)
        } else if addr <= 0xFF7F {
            self.io[(addr - 0xFF00) as usize]
        } else if addr <= 0xFFFE {
            self.hram[(addr - 0xFF80) as usize]
        } else {
            self.ie
        }
    }

    /// Current value of JOYP (`0xFF00`).
    fn joypad_register(&self) -> (r: u8)
        requires
            self.wf(),
        ensures
            r == joypad_register(self@.io[0], self.joypad),
    {
        let select = self.io[0];
        let j = self.joypad;
        let dpad: u8 = (if j.right { 1u8 } else { 0 }) | (if j.left { 2u8 } else { 0 }) | (if j.up {
            4u8
        } else {
            0
        }) | (if j.down { 8u8 } else { 0 });
        let buttons: u8 = (if j.a { 1u8 } else { 0 }) | (if j.b { 2u8 } else { 0 }) | (if j.select {
            4u8
        } else {
            0
        }) | (if j.start { 8u8 } else { 0 });
        let pressed: u8 = (if select & 0x10 == 0 { dpad } else { 0 }) | (if select & 0x20 == 0 {
            buttons
        } else {
            0
        });
        0xC0 | (select & 0x30) | (0x0F & !pressed)
    }

    /// Write a byte to the given address.
    #[verifier::spinoff_prover]
    #[verifier::rlimit(40)]
    pub fn write(&mut self, addr: u16, value: u8)
        requires
            old(self).wf(),
        ensures
            final(self)@ == old(self)@.write(addr, value),
            final(self).wf(),
    {
        reveal(BusState::write);
        if addr <= 0x7FFF {
            self.cartridge.write(addr, value);
        } else if addr <= 0x9FFF {
            self.vram.set((addr - 0x8000) as usize, value);
        } else if addr <= 0xBFFF {
            self.cartridge.write(addr, value);
        } else if addr <= 0xDFFF {
            self.wram.set((addr - 0xC000) as usize, value);
        } else if addr <= 0xFDFF {
            self.wram.set((addr - 0xE000) as usize, value);
        } else if addr <= 0xFE9F {
            self.oam.set((addr - 0xFE00) as usize, value);
        } else if addr <= 0xFEFF {
            // Unused region — writes ignored.
        } else if addr == 0xFF00 {
            self.io.set(0, value & 0x30);
        } else if addr == 0xFF02 {
            let sb = self.io[0x01];
            self.io.set(0x02, value);
            if value == 0x81 {
                self.serial_output.push(sb);
            }
        } else if 0xFF04 <= addr && addr <= 0xFF07 {
            self.timer.write(addr, value);
        } else if 0xFF10 <= addr && addr <= 0xFF3F {
            self.apu.write(addr, value);
        } else if addr == 0xFF41 {
            let stat = (value & 0x78) | (self.io[0x41] & 0x07);
            self.io.set(0x41, stat);
        } else if addr == 0xFF46 {
            self.io.set(0x46, value);
            self.oam_dma(value);
        } else if addr == 0xFF50 {
            self.io.set(0x50, value);
            if value != 0 {
                self.boot_rom_active = false;
            }
        } else if addr <= 0xFF7F {
            self.io.set((addr - 0xFF00) as usize, value);
        } else if addr <= 0xFFFE {
            self.hram.set((addr - 0xFF80) as usize, value);
        } else {
            self.ie = value;
        }
    }

    /// Instant OAM DMA: copy 160 bytes from `value * 0x100` into OAM.
    fn oam_dma(&mut self, value: u8)
        requires
            old(self).wf(),
        ensures
            final(self)@ == (BusState { oam: old(self)@.dma_oam(value), ..old(self)@ }),
            final(self).wf(),
    {
        let base: u16 = (value as u16) * 0x100;
        let mut i: usize = 0;
        while i < OAM_SIZE
            invariant
                0 <= i <= OAM_SIZE,
                old(self).wf(),
                base == value as int * 0x100,
                self.wf(),
                self@ == (BusState { oam: self@.oam, ..old(self)@ }),
                self@.oam.len() == OAM_SIZE,
                forall|j: int| 0 <= j < i ==> self@.oam[j] == old(self)@.read(dma_source(value, j)),
                forall|j: int| i <= j < OAM_SIZE ==> self@.oam[j] == old(self)@.oam[j],
            decreases OAM_SIZE - i,
        {
            let addr: u16 = base + i as u16;
            proof {
                assert(addr == dma_source(value, i as int));
                if 0xFE00 <= addr < 0xFE00 + i {
                    // Only page 0xFE overlaps OAM, and then byte i reads OAM[i].
                    assert(false);
                }
                lemma_read_outside_oam_prefix(self@, old(self)@, i as int, addr);
            }
            let b = self.read(addr);
            self.oam.set(i, b);
            i += 1;
        }
        assert(self@.oam =~= old(self)@.dma_oam(value));
    }

    /// Write STAT (`0xFF41`) in full, including the read-only mode and
    /// coincidence bits that only the PPU updates.
    pub fn write_stat_ppu(&mut self, value: u8)
        requires
            old(self).wf(),
        ensures
            final(self)@ == old(self)@.set_io(0xFF41, value),
            final(self).wf(),
    {
        self.io.set(0x41, value);
    }

    /// Store the new joypad state. Returns `true` if a button was newly
    /// pressed, which requests the joypad interrupt.
    pub fn update_joypad(&mut self, state: JoypadState) -> (pressed: bool)
        requires
            old(self).wf(),
        ensures
            final(self)@ == (BusState { joypad: state, ..old(self)@ }),
            final(self).wf(),
            pressed == newly_pressed(old(self)@.joypad, state),
    {
        let old = self.joypad;
        self.joypad = state;
        (!old.up && state.up) || (!old.down && state.down) || (!old.left && state.left) || (
        !old.right && state.right) || (!old.a && state.a) || (!old.b && state.b) || (!old.start
            && state.start) || (!old.select && state.select)
    }

    /// Advance the timer by `t_cycles`; returns whether it requests its
    /// interrupt.
    pub fn step_timer(&mut self, t_cycles: u32) -> (irq: bool)
        requires
            old(self).wf(),
        ensures
            (final(self)@.timer, irq) == old(self)@.timer.run(t_cycles as nat),
            final(self)@ == (BusState { timer: final(self)@.timer, ..old(self)@ }),
            final(self).wf(),
    {
        let irq = self.timer.step(t_cycles);
        proof {
            crate::timer::lemma_timer_run_wf(old(self)@.timer, t_cycles as nat);
        }
        irq
    }

    /// Clock the APU frame sequencer from the timer's internal counter.
    pub fn step_apu(&mut self)
        requires
            old(self).wf(),
        ensures
            final(self)@ == (BusState {
                apu: old(self)@.apu.step(old(self)@.timer.counter),
                ..old(self)@
            }),
            final(self).wf(),
    {
        let div = self.timer.div_counter();
        self.apu.step(div);
    }

    /// Move the bytes sent through the serial port to the end of `out`.
    pub fn drain_serial(&mut self, out: &mut Vec<u8>)
        requires
            old(self).wf(),
        ensures
            final(self)@ == (BusState { serial_output: Seq::empty(), ..old(self)@ }),
            final(out)@ == old(out)@ + old(self)@.serial_output,
            final(self).wf(),
    {
        out.append(&mut self.serial_output);
        assert(self@.serial_output =~= Seq::<u8>::empty());
    }

    /// The 8 KiB of VRAM (`0x8000–0x9FFF`).
    pub fn vram(&self) -> (v: &[u8])
        ensures
            v@ == self@.vram,
    {
        self.vram.as_slice()
    }

    /// The cartridge's battery-backed RAM, or `None` without a battery.
    pub fn battery_ram(&self) -> (r: Option<&[u8]>)
        ensures
            r is Some <==> self@.cart.battery_ram() is Some,
            r matches Some(s) ==> s@ == self@.cart.battery_ram()->Some_0,
    {
        self.cartridge.battery_ram()
    }

    /// Restore the cartridge's battery-backed RAM from saved data.
    pub fn load_battery_ram(&mut self, data: &[u8])
        requires
            old(self).wf(),
        ensures
            final(self)@ == (BusState { cart: old(self)@.cart.load_battery_ram(data@), ..old(self)@ }),
            final(self).wf(),
    {
        self.cartridge.load_battery_ram(data);
    }
}

/// Addresses backed by plain memory or registers that read back what was
/// written: VRAM, WRAM and its echo, OAM, HRAM, IE, and the IO registers
/// other than JOYP, SC, DIV/TAC, the APU, STAT, DMA and the boot-ROM latch.
pub open spec fn plain_rw_addr(addr: u16) -> bool {
    ||| 0x8000 <= addr <= 0x9FFF
    ||| 0xC000 <= addr <= 0xFDFF
    ||| 0xFE00 <= addr <= 0xFE9F
    ||| 0xFF80 <= addr
    ||| addr == 0xFF01 || addr == 0xFF05 || addr == 0xFF06
    ||| (0xFF08 <= addr <= 0xFF0F) || addr == 0xFF40 || (0xFF42 <= addr <= 0xFF45)
    ||| (0xFF47 <= addr <= 0xFF4F)
    ||| (0xFF51 <= addr <= 0xFF7F)
}

/// A byte written to memory or to a plain register reads back unchanged.
pub proof fn lemma_read_after_write(s: BusState, addr: u16, value: u8)
    requires
        s.wf(),
        plain_rw_addr(addr),
    ensures
        s.write(addr, value).read(addr) == value,
{
    reveal(BusState::read);
    reveal(BusState::write);
}

/// Echo RAM (`0xE000–0xFDFF`) mirrors `0xC000–0xDDFF`: reads agree, and a
/// write through either address is seen at the other.
pub proof fn lemma_echo_ram(s: BusState, k: u16, value: u8)
    requires
        s.wf(),
        k < 0x1E00,
    ensures
        s.read((0xE000 + k) as u16) == s.read((0xC000 + k) as u16),
        s.write((0xE000 + k) as u16, value).read((0xC000 + k) as u16) == value,
        s.write((0xC000 + k) as u16, value).read((0xE000 + k) as u16) == value,
{
    reveal(BusState::read);
    reveal(BusState::write);
}

/// The unused region `0xFEA0–0xFEFF` reads `0xFF` and ignores writes.
pub proof fn lemma_unused_region(s: BusState, addr: u16, value: u8)
    requires
        0xFEA0 <= addr <= 0xFEFF,
    ensures
        s.read(addr) == 0xFF,
        s.write(addr, value) == s,
{
    reveal(BusState::read);
    reveal(BusState::write);
}

/// Writing `0x81` to SC (`0xFF02`) sends the byte in SB (`0xFF01`) to the
/// serial output; any other SC value sends nothing.
pub proof fn lemma_serial_transfer(s: BusState, value: u8)
    requires
        s.wf(),
    ensures
        s.write(0xFF02, value).serial_output == (if value == 0x81 {
            s.serial_output.push(s.read(0xFF01))
        } else {
            s.serial_output
        }),
{
    reveal(BusState::read);
    reveal(BusState::write);
}

/// An OAM DMA from page `value` (below `0xFF`) copies the 160 bytes at
/// `value * 0x100` into OAM.
pub proof fn lemma_oam_dma(s: BusState, value: u8, i: int)
    requires
        s.wf(),
        value < 0xFF,
        0 <= i < 0xA0,
    ensures
        s.write(0xFF46, value).read((0xFE00 + i) as u16) == s.read(dma_source(value, i)),
{
    reveal(BusState::read);
    reveal(BusState::write);
    let s1 = s.set_io(0xFF46, value);
    assert(s1.read(dma_source(value, i)) == s.read(dma_source(value, i)));
}

/// Once `0xFF50` is written with a non-zero value the boot ROM is unmapped
/// and the cartridge shows through at `0x0000–0x00FF`.
pub proof fn lemma_boot_rom_unmap(s: BusState, value: u8, addr: u16)
    requires
        s.wf(),
        value != 0,
        addr <= 0x00FF,
    ensures
        s.write(0xFF50, value).read(addr) == s.cart.read(addr),
{
    reveal(BusState::read);
    reveal(BusState::write);
}

/// Any write to DIV (`0xFF04`) resets the whole internal counter, so DIV then
/// reads 0.
pub proof fn lemma_div_reset(s: BusState, value: u8)
    requires
        s.wf(),
    ensures
        s.write(0xFF04, value).read(0xFF04) == 0,
        s.write(0xFF04, value).timer.counter == 0,
{
    reveal(BusState::read);
    reveal(BusState::write);
    crate::bits::lemma_shift_constants();
}

/// The CPU cannot change STAT bits 0–2 (mode and LYC=LY flag); bits 3–6
/// take the written value.
pub proof fn lemma_stat_cpu_write(s: BusState, value: u8)
    requires
        s.wf(),
    ensures
        s.write(0xFF41, value).read(0xFF41) & 0x07 == s.read(0xFF41) & 0x07,
        s.write(0xFF41, value).read(0xFF41) & 0x78 == value & 0x78,
{
    reveal(BusState::read);
    reveal(BusState::write);
    let old_stat = s.io[0x41];
    assert(((value & 0x78) | (old_stat & 0x07)) & 0x07 == old_stat & 0x07 && ((value & 0x78) | (
    old_stat & 0x07)) & 0x78 == value & 0x78) by (bit_vector);
}

/// JOYP reads a selected, pressed button as a 0 bit: with the d-pad group
/// selected (bit 4 clear), a pressed Right clears bit 0, and with the button
/// group selected (bit 5 clear), a pressed A clears bit 0; with neither group
/// selected the low nibble reads `0xF`.
pub proof fn lemma_joypad_active_low(select: u8, j: JoypadState)
    ensures
        (select & 0x10 == 0 && j.right) ==> joypad_register(select, j) & 0x01 == 0,
        (select & 0x20 == 0 && j.a) ==> joypad_register(select, j) & 0x01 == 0,
        (select & 0x30 == 0x30) ==> joypad_register(select, j) & 0x0F == 0x0F,
{
    let d = dpad_bits(j);
    let b = button_bits(j);
    let (right, left, up, down) = (j.right, j.left, j.up, j.down);
    let (ja, jb, jsel, jstart) = (j.a, j.b, j.select, j.start);
    assert((right ==> d & 1 == 1) && (ja ==> b & 1 == 1)) by (bit_vector)
        requires
            d == (if right { 1u8 } else { 0 }) | (if left { 2u8 } else { 0 }) | (if up { 4u8 } else { 0 })
                | (if down { 8u8 } else { 0 }),
            b == (if ja { 1u8 } else { 0 }) | (if jb { 2u8 } else { 0 }) | (if jsel { 4u8 } else { 0 })
                | (if jstart { 8u8 } else { 0 });
    let pressed: u8 = (if select & 0x10 == 0 { d } else { 0 }) | (if select & 0x20 == 0 { b } else { 0 });
    assert((select & 0x10 == 0 && d & 1 == 1) ==> (0xC0 | (select & 0x30) | (0x0F & !pressed)) & 0x01 == 0) by (bit_vector)
        requires
            pressed == (if select & 0x10 == 0 { d } else { 0 }) | (if select & 0x20 == 0 { b } else { 0 });
    assert((select & 0x20 == 0 && b & 1 == 1) ==> (0xC0 | (select & 0x30) | (0x0F & !pressed)) & 0x01 == 0) by (bit_vector)
        requires
            pressed == (if select & 0x10 == 0 { d } else { 0 }) | (if select & 0x20 == 0 { b } else { 0 });
    assert((select & 0x30 == 0x30) ==> (0xC0 | (select & 0x30) | (0x0F & !pressed)) & 0x0F == 0x0F) by (bit_vector)
        requires
            pressed == (if select & 0x10 == 0 { d } else { 0 }) | (if select & 0x20 == 0 { b } else { 0 });
}

/// JOYP's low nibble shows the selected group's buttons active low: with
/// only the d-pad selected (bit 4 clear, bit 5 set) bits 0–3 are Right,
/// Left, Up, Down; with only the action buttons selected (bit 5 clear, bit
/// 4 set) they are A, B, Select, Start; a pressed button reads 0. Bits 7–6
/// read 1 and bits 5–4 read back the select lines.
pub proof fn lemma_joypad_lines(select: u8, j: JoypadState)
    ensures
        select & 0x30 == 0x20 ==> joypad_register(select, j) == 0xE0 | (if j.right { 0u8 } else { 1 }) | (
        if j.left { 0u8 } else { 2 }) | (if j.up { 0u8 } else { 4 }) | (if j.down { 0u8 } else { 8 }),
        select & 0x30 == 0x10 ==> joypad_register(select, j) == 0xD0 | (if j.a { 0u8 } else { 1 }) | (
        if j.b { 0u8 } else { 2 }) | (if j.select { 0u8 } else { 4 }) | (if j.start { 0u8 } else { 8 }),
{
    let d = dpad_bits(j);
    let b = button_bits(j);
    let (right, left, up, down) = (j.right, j.left, j.up, j.down);
    let (ja, jb, jsel, jstart) = (j.a, j.b, j.select, j.start);
    assert(select & 0x30 == 0x20 ==> 0xC0 | (select & 0x30) | (0x0F & !(d | 0)) == 0xE0 | (if right { 0u8 } else { 1 }) | (
    if left { 0u8 } else { 2 }) | (if up { 0u8 } else { 4 }) | (if down { 0u8 } else { 8 })) by (bit_vector)
        requires
            d == (if right { 1u8 } else { 0 }) | (if left { 2u8 } else { 0 }) | (if up { 4u8 } else { 0 })
                | (if down { 8u8 } else { 0 });
    assert(select & 0x30 == 0x10 ==> 0xC0 | (select & 0x30) | (0x0F & !(0 | b)) == 0xD0 | (if ja { 0u8 } else { 1 }) | (
    if jb { 0u8 } else { 2 }) | (if jsel { 0u8 } else { 4 }) | (if jstart { 0u8 } else { 8 })) by (bit_vector)
        requires
            b == (if ja { 1u8 } else { 0 }) | (if jb { 2u8 } else { 0 }) | (if jsel { 4u8 } else { 0 })
                | (if jstart { 8u8 } else { 0 });
    assert(select & 0x30 == 0x20 ==> (select & 0x10 == 0 && select & 0x20 != 0)) by (bit_vector);
    assert(select & 0x30 == 0x10 ==> (select & 0x10 != 0 && select & 0x20 == 0)) by (bit_vector);
}

} // verus!
