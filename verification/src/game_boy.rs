use vstd::prelude::*;

use crate::bus::{Bus, BusState, JoypadState};
use crate::cpu::CPU;
use crate::ppu::{PPU, PPUTiming, Pipeline};

verus! {

/// Snapshot of emulator state for the debug overlay.
#[derive(Debug, Clone)]
pub struct DebugInfo {
    // CPU registers
    pub a: u8,
    pub b: u8,
    pub c: u8,
    pub d: u8,
    pub e: u8,
    pub h: u8,
    pub l: u8,
    pub f: u8,
    pub sp: u16,
    pub pc: u16,
    // Flags (derived from F)
    pub flag_z: bool,
    pub flag_n: bool,
    pub flag_h: bool,
    pub flag_c: bool,
    // IME
    pub ime: bool,
    // PPU
    pub ppu_mode: u8,
    pub ly: u8,
    // Cycle count
    pub total_cycles: u64,
    // ROM title
    pub rom_title: String,
}

/// Returned by [`GameBoy::step`] to indicate what happened during this step.
#[derive(Debug, PartialEq, Eq, Structural)]
pub enum StepResult {
    /// Normal step — no frame boundary was crossed.
    Continue,
    /// The PPU entered VBlank: a full frame has been drawn and the
    /// framebuffer is ready.
    FrameComplete,
}

/// Errors that can be returned from [`GameBoy::step`].
#[derive(Debug)]
pub enum EmulationError {
    /// The CPU reached an opcode it does not execute.
    InvalidOpcode(u8),
}

/// Decodes bytes as UTF-8, replacing invalid sequences with U+FFFD.
pub uninterp spec fn utf8_lossy(bytes: Seq<u8>) -> Seq<char>;

/// `String::from_utf8_lossy` (made owned): decodes `bytes`, replacing
/// invalid sequences with U+FFFD. Claimed: the result is [`utf8_lossy`] of
/// the bytes, and bytes that are all ASCII decode one character per byte.
/// Nothing else is said of how non-ASCII input decodes.
#[verifier::external_body]
fn string_from_utf8_lossy(bytes: &[u8]) -> (s: String)
    ensures
        s@ == utf8_lossy(bytes@),
        (forall|i: int| 0 <= i < bytes@.len() ==> bytes@[i] < 0x80) ==> s@ == bytes@.map_values(
            |b: u8| b as char,
        ),
{
    String::from_utf8_lossy(bytes).into_owned()
}

/// The cartridge title as the bus shows it: bytes `0x0134–0x0143` up to the
/// first NUL.
pub open spec fn title_bytes(bus: BusState) -> Seq<u8> {
    let raw = Seq::new(16, |i: int| bus.read((0x0134 + i) as u16));
    raw.take(crate::mbc::header::first_nul(raw, 0) as int)
}

/// Everything that one emulation step reads and changes: CPU registers, PPU
/// timing, the PPU's pixel pipeline (framebuffer included), the bus, and the
/// T-cycles of the current instruction still to run (0 when the next step
/// starts a new instruction).
pub struct MachineState {
    pub cpu: CPU,
    pub timing: PPUTiming,
    pub pipeline: Pipeline,
    pub bus: BusState,
    pub cycles_left: u32,
}

/// Joypad phase: store the new button state and request the joypad
/// interrupt (IF bit 4) when a button was newly pressed.
pub open spec fn joypad_phase(bus: BusState, input: JoypadState) -> BusState {
    let b1 = BusState { joypad: input, ..bus };
    if crate::bus::newly_pressed(bus.joypad, input) {
        b1.write(0xFF0F, b1.read(0xFF0F) | 0x10)
    } else {
        b1
    }
}

/// Set `bits` in IF (`0xFF0F`) when `request` holds.
pub open spec fn request_interrupt(bus: BusState, request: bool, bits: u8) -> BusState {
    if request {
        bus.write(0xFF0F, bus.read(0xFF0F) | bits)
    } else {
        bus
    }
}

/// The step can proceed: an instruction is still running, the CPU is
/// halted, or the opcode at PC (after the joypad phase) is one it executes.
pub open spec fn can_run(m: MachineState, input: JoypadState) -> bool {
    m.cycles_left != 0 || m.cpu.halted || crate::cpu::can_step(m.cpu, joypad_phase(m.bus, input))
}

/// Result of one emulation step: the new machine state, the serial bytes it
/// collected, the T-cycles of an interrupt dispatch, and whether VBlank was
/// entered.
pub struct StepOutcome {
    pub machine: MachineState,
    pub serial: Seq<u8>,
    pub irq_cycles: Option<u32>,
    pub vblank: bool,
}

/// T-cycles in one machine cycle: what one emulation step advances.
pub const M_CYCLE: u32 = 4;

/// One emulation step, one machine cycle (4 T-cycles): the joypad; when no
/// instruction is running, the next one executes (or, while halted, a
/// 4-T-cycle wait begins) and its T-cycles become the ones left to run; then
/// the timer and its interrupt (IF bit 2), the APU frame sequencer and the
/// PPU with the VBlank interrupt (IF bit 0) advance 4 T-cycles; when the
/// instruction's last machine cycle is done, interrupts are dispatched; the
/// serial output is collected.
pub open spec fn machine_step(m: MachineState, input: JoypadState) -> StepOutcome {
    let b1 = joypad_phase(m.bus, input);
    let (cpu2, b2, left) = if m.cycles_left != 0 {
        (m.cpu, b1, m.cycles_left)
    } else if m.cpu.halted {
        (m.cpu, b1, 4u32)
    } else {
        crate::cpu::step_spec(m.cpu, b1)
    };
    let (timer, timer_irq) = b2.timer.run(4);
    let b3 = request_interrupt(BusState { timer, ..b2 }, timer_irq, 0x04);
    let b4 = BusState { apu: b3.apu.step(b3.timer.counter), ..b3 };
    let (timing, pipeline, b5, vblank) = crate::ppu::run_ppu(m.timing, m.pipeline, b4, 4);
    let b6 = request_interrupt(b5, vblank, 0x01);
    let rest = (left - 4) as u32;
    let (cpu3, b7, irq_cycles) = if rest == 0 {
        crate::cpu::interrupt_spec(cpu2, b6)
    } else {
        (cpu2, b6, None)
    };
    StepOutcome {
        machine: MachineState {
            cpu: cpu3,
            timing,
            pipeline,
            bus: BusState { serial_output: Seq::empty(), ..b7 },
            cycles_left: rest,
        },
        serial: b7.serial_output,
        irq_cycles,
        vblank,
    }
}

/// `x + y` modulo 2^32.
pub open spec fn wrap32(x: u32, y: u32) -> u32 {
    ((x as int + y as int) % 0x1_0000_0000) as u32
}

/// `x + y` modulo 2^64.
pub open spec fn wrap64(x: u64, y: u64) -> u64 {
    ((x as int + y as int) % 0x1_0000_0000_0000_0000) as u64
}

/// Top-level emulator struct. Owns all hardware components.
pub struct GameBoy {
    cpu: CPU,
    ppu: PPU,
    bus: Bus,
    /// Serial output bytes collected from blargg-style test ROMs.
    pub serial_output: Vec<u8>,
    /// T-cycle counter (wraps around).
    cycles: u32,
    /// Total T-cycles elapsed since boot (wraps around).
    total_cycles: u64,
    /// T-cycles of the current instruction still to run.
    cycles_left: u32,
}

impl GameBoy {
    /// Components are well formed.
    pub closed spec fn wf(&self) -> bool {
        &&& self.bus.wf()
        &&& self.ppu.wf()
        &&& self.cycles_left <= 16
        &&& self.cycles_left % 4 == 0
    }

    /// CPU registers, PPU timing and pipeline, and bus state.
    pub closed spec fn machine(&self) -> MachineState {
        MachineState {
            cpu: self.cpu,
            timing: self.ppu.timing(),
            pipeline: self.ppu.pipeline(),
            bus: self.bus@,
            cycles_left: self.cycles_left,
        }
    }

    /// The RGBA framebuffer contents.
    pub open spec fn frame(&self) -> Seq<u8> {
        self.machine().pipeline.frame
    }

    /// Serial bytes collected and not yet taken by the caller.
    pub closed spec fn serial(&self) -> Seq<u8> {
        self.serial_output@
    }

    /// Total T-cycles elapsed.
    pub closed spec fn total(&self) -> u64 {
        self.total_cycles
    }

    /// T-cycle counter that also counts interrupt dispatches (wraps around).
    pub closed spec fn cycle_counter(&self) -> u32 {
        self.cycles
    }

    /// Create a new `GameBoy` from ROM bytes, with an optional boot ROM.
    ///
    /// - If `boot_rom` is `None`, registers are initialised to the post-boot
    ///   DMG state and execution begins at `0x0100`.
    /// - If `boot_rom` is `Some`, a cold-start CPU is used and execution
    ///   begins at `0x0000` in the boot ROM.
    ///
    /// The cartridge type at `0x0147` must be a supported one.
    pub fn new(rom: Vec<u8>, boot_rom: Option<Vec<u8>>) -> (gb: Self)
        requires
            crate::mbc::supported_mbc_type(crate::mbc::mbc_type_of(rom@)),
        ensures
            gb.wf(),
            gb.machine().bus == crate::bus::initial_bus(rom@, crate::bus::bytes_view(boot_rom)),
            gb.machine().timing == (PPUTiming { ly: 0, dot: 0, mode: 2, stat_line: false }),
            gb.machine().pipeline == crate::ppu::initial_pipeline(),
            boot_rom is None ==> gb.machine().cpu == CPU::spec_post_boot(),
            boot_rom is Some ==> gb.machine().cpu == CPU::spec_cold(),
            gb.serial() == Seq::<u8>::empty(),
            gb.total() == 0,
            gb.cycle_counter() == 0,
            gb.machine().cycles_left == 0,
            gb.frame() == crate::ppu::black_frame(),
    {
        let has_boot_rom = boot_rom.is_some();
        let bus = Bus::new(rom, boot_rom);
        let cpu = if has_boot_rom {
            CPU::new()
        } else {
            CPU::new_post_boot()
        };
        GameBoy {
            cpu,
            ppu: PPU::new(),
            bus,
            serial_output: Vec::new(),
            cycles: 0,
            total_cycles: 0,
            cycles_left: 0,
        }
    }
}

impl GameBoy {
    /// Advance emulation by one machine cycle (4 T-cycles).
    ///
    /// An instruction executes on its first machine cycle; the steps that
    /// follow run the rest of its T-cycles, and interrupts are checked after
    /// its last one.
    ///
    /// Returns `Ok(StepResult::FrameComplete)` on the step in which the PPU
    /// enters VBlank, `Ok(StepResult::Continue)` otherwise, and
    /// `Err(EmulationError::InvalidOpcode)` when the CPU reaches an opcode it
    /// does not execute (the step then stops after the joypad update).
    #[verifier::spinoff_prover]
    #[verifier::rlimit(80)]
    pub fn step(&mut self, input: &JoypadState) -> (r: Result<StepResult, EmulationError>)
        requires
            old(self).wf(),
        ensures
            final(self).wf(),
            crate::ppu::frame_ok(final(self).frame()),
            ({
                let m = old(self).machine();
                let out = machine_step(m, *input);
                match r {
                    Ok(res) => {
                        &&& can_run(m, *input)
                        &&& final(self).machine() == out.machine
                        &&& final(self).serial() == old(self).serial() + out.serial
                        &&& (res == StepResult::FrameComplete) == out.vblank
                        &&& final(self).total() == wrap64(old(self).total(), 4)
                        &&& final(self).cycle_counter() == wrap32(
                            match out.irq_cycles {
                                Some(c) => wrap32(old(self).cycle_counter(), c),
                                None => old(self).cycle_counter(),
                            },
                            4,
                        )
                    },
                    Err(e) => {
                        &&& !can_run(m, *input)
                        &&& e == EmulationError::InvalidOpcode(
                            joypad_phase(m.bus, *input).read(m.cpu.pc),
                        )
                        &&& final(self).machine() == (MachineState {
                            bus: joypad_phase(m.bus, *input),
                            ..m
                        })
                        &&& final(self).serial() == old(self).serial()
                        &&& final(self).total() == old(self).total()
                        &&& final(self).cycle_counter() == old(self).cycle_counter()
                    },
                }
            }),
    {
        // Update joypad state. If any button was newly pressed, request the
        // joypad interrupt (IF bit 4, vector 0x0060).
        if self.bus.update_joypad(*input) {
            let if_val = self.bus.read(0xFF0F);
            self.bus.write(0xFF0F, if_val | 0x10);
        }

        // Start the next instruction when the previous one has run all its
        // machine cycles. While halted, wait 4 T-cycles for an interrupt.
        let left = if self.cycles_left != 0 {
            self.cycles_left
        } else if self.cpu.halted {
            4
        } else {
            let opcode = self.bus.read(self.cpu.pc);
            if !CPU::is_implemented(opcode) {
                proof {
                    self.ppu.lemma_frame_ok();
                }
                return Err(EmulationError::InvalidOpcode(opcode));
            }
            proof {
                crate::cpu::lemma_step_cycles(self.cpu, self.bus@);
            }
            self.cpu.step(&mut self.bus)
        };

        // One machine cycle of the timer; request its interrupt (IF bit 2)
        // if it fired.
        if self.bus.step_timer(M_CYCLE) {
            let if_val = self.bus.read(0xFF0F);
            self.bus.write(0xFF0F, if_val | 0x04);
        }

        // Step the APU frame sequencer, driven by the same internal counter.
        self.bus.step_apu();

        // One machine cycle of the PPU. If VBlank is entered, request its
        // interrupt (IF bit 0).
        let vblank = self.ppu.step(&mut self.bus, M_CYCLE);
        if vblank {
            let if_val = self.bus.read(0xFF0F);
            self.bus.write(0xFF0F, if_val | 0x01);
        }

        // Once the instruction has run all its machine cycles, check and
        // dispatch interrupts (also wakes the CPU from HALT).
        self.cycles_left = left - M_CYCLE;
        if self.cycles_left == 0 {
            if let Some(irq_cycles) = self.cpu.check_interrupts(&mut self.bus) {
                self.cycles = self.cycles.wrapping_add(irq_cycles);
            }
        }
        self.cycles = self.cycles.wrapping_add(M_CYCLE);
        self.total_cycles = self.total_cycles.wrapping_add(M_CYCLE as u64);

        // Move the serial bytes produced by the bus into the public
        // serial_output buffer.
        self.bus.drain_serial(&mut self.serial_output);

        proof {
            self.ppu.lemma_frame_ok();
        }
        // VBlank entry (PPU entering Mode 1) marks the frame boundary.
        if vblank {
            Ok(StepResult::FrameComplete)
        } else {
            Ok(StepResult::Continue)
        }
    }
}

impl GameBoy {
    /// Return a snapshot of current emulator state for the debug overlay.
    pub fn debug_info(&self) -> (info: DebugInfo)
        requires
            self.wf(),
        ensures
            ({
                let cpu = self.machine().cpu;
                &&& info.a == cpu.a && info.b == cpu.b && info.c == cpu.c && info.d == cpu.d
                &&& info.e == cpu.e && info.h == cpu.h && info.l == cpu.l && info.f == cpu.f
                &&& info.sp == cpu.sp && info.pc == cpu.pc && info.ime == cpu.ime
                &&& info.flag_z == (cpu.f & 0x80 != 0) && info.flag_n == (cpu.f & 0x40 != 0)
                &&& info.flag_h == (cpu.f & 0x20 != 0) && info.flag_c == (cpu.f & 0x10 != 0)
            }),
            info.ppu_mode == self.machine().timing.mode,
            info.ly == self.machine().timing.ly,
            info.ly <= 153,
            info.ppu_mode <= 3,
            info.total_cycles == self.total(),
            info.rom_title@ == utf8_lossy(title_bytes(self.machine().bus)),
    {
        proof {
            self.ppu.lemma_timing_bounds();
        }
        // ROM title from cartridge header bytes 0x0134–0x0143.
        let ghost raw = Seq::new(16, |i: int| self.bus@.read((0x0134 + i) as u16));
        let mut title_bytes: Vec<u8> = Vec::new();
        let mut addr: u16 = 0x0134;
        while addr <= 0x0143 && self.bus.read(addr) != 0
            invariant
                0x0134 <= addr <= 0x0144,
                self.bus.wf(),
                raw == Seq::new(16, |i: int| self.bus@.read((0x0134 + i) as u16)),
                crate::mbc::header::first_nul(raw, (addr - 0x0134) as nat)
                    == crate::mbc::header::first_nul(raw, 0),
                title_bytes@ == raw.take(addr - 0x0134),
            decreases 0x0144 - addr,
        {
            let b = self.bus.read(addr);
            title_bytes.push(b);
            assert(raw.take(addr - 0x0134 + 1) =~= raw.take(addr - 0x0134).push(b));
            addr += 1;
        }
        let rom_title = string_from_utf8_lossy(title_bytes.as_slice());
        DebugInfo {
            a: self.cpu.a,
            b: self.cpu.b,
            c: self.cpu.c,
            d: self.cpu.d,
            e: self.cpu.e,
            h: self.cpu.h,
            l: self.cpu.l,
            f: self.cpu.f,
            sp: self.cpu.sp,
            pc: self.cpu.pc,
            flag_z: self.cpu.f & 0x80 != 0,
            flag_n: self.cpu.f & 0x40 != 0,
            flag_h: self.cpu.f & 0x20 != 0,
            flag_c: self.cpu.f & 0x10 != 0,
            ime: self.cpu.ime,
            ppu_mode: self.ppu.mode(),
            ly: self.ppu.ly(),
            total_cycles: self.total_cycles,
            rom_title,
        }
    }

    /// Return a reference to the 160×144 RGBA framebuffer.
    ///
    /// Each pixel is four consecutive bytes: red, green, blue, alpha.
    /// Valid to read after any [`StepResult::FrameComplete`] is returned.
    pub fn framebuffer(&self) -> (fb: &[u8])
        ensures
            fb@ == self.frame(),
    {
        self.ppu.framebuffer()
    }

    /// The 8 KiB of VRAM (tile data and tile maps), for the tile viewer.
    pub fn vram_tiles(&self) -> (v: &[u8])
        ensures
            v@ == self.machine().bus.vram,
    {
        self.bus.vram()
    }

    /// The background palette register BGP (`0xFF47`).
    pub fn bgp(&self) -> (r: u8)
        requires
            self.wf(),
        ensures
            r == self.machine().bus.read(0xFF47),
    {
        self.bus.read(0xFF47)
    }

    /// Returns the cartridge's battery-backed RAM, or `None` if the cartridge
    /// has no battery. Use this to persist saves to disk on exit.
    pub fn battery_ram(&self) -> (r: Option<Vec<u8>>)
        ensures
            r is Some <==> self.machine().bus.cart.battery_ram() is Some,
            r matches Some(v) ==> v@ == self.machine().bus.cart.battery_ram()->Some_0,
    {
        match self.bus.battery_ram() {
            Some(s) => Some(vstd::slice::slice_to_vec(s)),
            None => None,
        }
    }

    /// Restores the cartridge's battery-backed RAM from previously-saved data.
    /// Call this after construction but before running any steps.
    pub fn load_battery_ram(&mut self, data: &[u8])
        requires
            old(self).wf(),
        ensures
            final(self).wf(),
            final(self).machine() == (MachineState {
                bus: BusState {
                    cart: old(self).machine().bus.cart.load_battery_ram(data@),
                    ..old(self).machine().bus
                },
                ..old(self).machine()
            }),
            final(self).serial() == old(self).serial(),
            final(self).total() == old(self).total(),
            final(self).cycle_counter() == old(self).cycle_counter(),
    {
        self.bus.load_battery_ram(data);
    }
}

} // verus!
