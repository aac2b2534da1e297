//! DMG APU Channel 3 — Arbitrary waveform.
//!
//! Registers:
//! - NR30 (`0xFF1A`): DAC enable (bit 7)
//! - NR31 (`0xFF1B`): length data (bits 7-0); length counter = 256 - val
//! - NR32 (`0xFF1C`): output level (bits 6-5): 0=mute, 1=100%, 2=50%, 3=25%
//! - NR33 (`0xFF1D`): frequency low byte (write-only)
//! - NR34 (`0xFF1E`): trigger (bit 7), length enable (bit 6), freq high (bits 2-0)
//!
//! Wave RAM: `0xFF30–0xFF3F` — 16 bytes, 32 × 4-bit samples
use vstd::prelude::*;

verus! {

/// Frequency-timer period of the wave channel, in T-cycles.
pub open spec fn wave_period(freq: u16) -> int {
    (2048 - freq) * 2
}

/// Abstract state of channel 3.
pub struct CH3State {
    pub dac_enabled: bool,
    pub length_counter: u16,
    pub output_level: u8,
    pub freq: u16,
    pub length_enable: bool,
    pub enabled: bool,
    pub freq_timer: u32,
    pub sample_pos: u8,
    pub wave_ram: Seq<u8>,
}

impl CH3State {
    /// Power-on state: DAC off, silent, wave RAM zeroed.
    pub open spec fn initial() -> CH3State {
        CH3State {
            dac_enabled: false,
            length_counter: 0,
            output_level: 0,
            freq: 0,
            length_enable: false,
            enabled: false,
            freq_timer: 4096,
            sample_pos: 0,
            wave_ram: Seq::new(16, |i: int| 0u8),
        }
    }

    pub open spec fn wf(self) -> bool {
        &&& self.length_counter <= 256
        &&& self.output_level <= 3
        &&& self.freq <= 0x7FF
        &&& 1 <= self.freq_timer <= 4096
        &&& self.sample_pos <= 31
        &&& self.wave_ram.len() == 16
        &&& self.enabled ==> self.dac_enabled
    }

    pub open spec fn read(self, addr: u16) -> u8 {
        if addr == 0xFF1A {
            if self.dac_enabled { 0xFF } else { 0x7F }
        } else if addr == 0xFF1C {
            0x9F | (self.output_level << 5)
        } else if addr == 0xFF1E {
            0xBF | (if self.length_enable { 0x40u8 } else { 0 })
        } else if 0xFF30 <= addr <= 0xFF3F {
            // Wave RAM is not readable while the channel plays.
            if self.enabled { 0xFF } else { self.wave_ram[addr - 0xFF30] }
        } else {
            0xFF
        }
    }

    /// Trigger: the channel turns on if its DAC is on, an expired length
    /// counter restarts at 256, playback restarts at sample 0 and the
    /// frequency timer reloads.
    pub open spec fn trigger(self) -> CH3State {
        CH3State {
            enabled: self.dac_enabled,
            length_counter: if self.length_counter == 0 { 256 } else { self.length_counter },
            sample_pos: 0,
            freq_timer: wave_period(self.freq) as u32,
            ..self
        }
    }

    pub open spec fn write(self, addr: u16, value: u8) -> CH3State {
        if addr == 0xFF1A {
            let dac = value & 0x80 != 0;
            CH3State { dac_enabled: dac, enabled: self.enabled && dac, ..self }
        } else if addr == 0xFF1B {
            CH3State { length_counter: (256 - value) as u16, ..self }
        } else if addr == 0xFF1C {
            CH3State { output_level: (value >> 5) & 0x03, ..self }
        } else if addr == 0xFF1D {
            CH3State { freq: (self.freq & 0x0700) | (value as u16), ..self }
        } else if addr == 0xFF1E {
            let s = CH3State {
                freq: (self.freq & 0x00FF) | (((value & 0x07) as u16) << 8),
                length_enable: value & 0x40 != 0,
                ..self
            };
            if value & 0x80 != 0 {
                s.trigger()
            } else {
                s
            }
        } else if 0xFF30 <= addr <= 0xFF3F {
            CH3State { wave_ram: self.wave_ram.update(addr - 0xFF30, value), ..self }
        } else {
            self
        }
    }

    pub open spec fn clock_length(self) -> CH3State {
        if self.length_enable && self.length_counter > 0 {
            CH3State {
                length_counter: (self.length_counter - 1) as u16,
                enabled: self.enabled && self.length_counter != 1,
                ..self
            }
        } else {
            self
        }
    }

    /// Advance the frequency timer by `cycles` T-cycles while the channel
    /// plays: the sample position moves one step each time the timer expires.
    pub open spec fn step(self, cycles: u32) -> CH3State {
        if !self.enabled {
            self
        } else if self.freq_timer <= cycles {
            let period = wave_period(self.freq);
            let remainder = cycles - self.freq_timer;
            CH3State {
                sample_pos: ((self.sample_pos + 1 + remainder / period) % 32) as u8,
                freq_timer: (period - remainder % period) as u32,
                ..self
            }
        } else {
            CH3State { freq_timer: (self.freq_timer - cycles) as u32, ..self }
        }
    }

    /// The 4-bit sample at the current position: high nibble for even
    /// positions, low nibble for odd ones.
    pub open spec fn nibble(self) -> u8 {
        let byte = self.wave_ram[(self.sample_pos / 2) as int];
        if self.sample_pos % 2 == 0 {
            byte >> 4
        } else {
            byte & 0x0F
        }
    }

    /// Digital output (0–15) after the volume shift, or `None` when the
    /// channel or its DAC is off.
    pub open spec fn output(self) -> Option<u8> {
        if !self.enabled || !self.dac_enabled {
            None
        } else if self.output_level == 0 {
            Some(0)
        } else {
            Some(self.nibble() >> ((self.output_level - 1) as u8))
        }
    }
}

pub struct CH3 {
    dac_enabled: bool,
    length_counter: u16,
    output_level: u8,
    freq: u16,
    length_enable: bool,
    enabled: bool,
    freq_timer: u32,
    sample_pos: u8,
    wave_ram: [u8; 16],
}

impl View for CH3 {
    type V = CH3State;

    closed spec fn view(&self) -> CH3State {
        CH3State {
            dac_enabled: self.dac_enabled,
            length_counter: self.length_counter,
            output_level: self.output_level,
            freq: self.freq,
            length_enable: self.length_enable,
            enabled: self.enabled,
            freq_timer: self.freq_timer,
            sample_pos: self.sample_pos,
            wave_ram: self.wave_ram@,
        }
    }
}

impl CH3 {
    #[verifier::type_invariant]
    closed spec fn inv(&self) -> bool {
        self@.wf()
    }

    pub fn new() -> (c: Self)
        ensures
            c@ == CH3State::initial(),
            c@.wf(),
    {
        let c = CH3 {
            dac_enabled: false,
            length_counter: 0,
            output_level: 0,
            freq: 0,
            length_enable: false,
            enabled: false,
            freq_timer: 4096,
            sample_pos: 0,
            wave_ram: [0u8; 16],
        };
        assert(c@.wave_ram =~= Seq::new(16, |i: int| 0u8));
        c
    }

    /// Read an NR3x register or wave RAM.
    pub fn read(&self, addr: u16) -> (r: u8)
        ensures
            r == self@.read(addr),
            self@.wf(),
            0xFF30 <= addr <= 0xFF3F ==> r == (if self@.enabled && self@.dac_enabled {
                0xFF
            } else {
                self@.wave_ram[addr - 0xFF30]
            }),
    {
        proof {
            use_type_invariant(self);
            crate::bits::lemma_u8_fields(self.output_level);
        }
        if addr == 0xFF1A {
            if self.dac_enabled {
                0xFF
            } else {
                0x7F
            }
        } else if addr == 0xFF1B {
            0xFF  // write-only

        } else if addr == 0xFF1C {
            0x9F | ((self.output_level & 0x03) << 5)
        } else if addr == 0xFF1D {
            0xFF  // write-only

        } else if addr == 0xFF1E {
            0xBF | (if self.length_enable { 0x40u8 } else { 0 })
        } else if 0xFF30 <= addr && addr <= 0xFF3F {
            if self.enabled {
                0xFF
            } else {
                self.wave_ram[(addr - 0xFF30) as usize]
            }
        } else {
            0xFF
        }
    }

    /// Write an NR3x register or wave RAM.
    pub fn write(&mut self, addr: u16, value: u8)
        ensures
            final(self)@ == old(self)@.write(addr, value),
            final(self)@.wf(),
    {
        proof {
            use_type_invariant(&*self);
            crate::bits::lemma_u8_fields(value);
            crate::bits::lemma_freq_bits(self.freq, value);
        }
        if addr == 0xFF1A {
            let dac = (value & 0x80) != 0;
            // Turning the DAC off also turns the channel off.
            if !dac {
                self.enabled = false;
            }
            self.dac_enabled = dac;
        } else if addr == 0xFF1B {
            self.length_counter = 256 - (value as u16);
        } else if addr == 0xFF1C {
            self.output_level = (value >> 5) & 0x03;
        } else if addr == 0xFF1D {
            self.freq = (self.freq & 0x0700) | (value as u16);
        } else if addr == 0xFF1E {
            self.freq = (self.freq & 0x00FF) | (((value & 0x07) as u16) << 8);
            self.length_enable = (value & 0x40) != 0;
            if (value & 0x80) != 0 {
                self.trigger();
            }
        } else if 0xFF30 <= addr && addr <= 0xFF3F {
            self.wave_ram[(addr - 0xFF30) as usize] = value;
        }
    }

    fn trigger(&mut self)
        ensures
            final(self)@ == old(self)@.trigger(),
    {
        proof {
            use_type_invariant(&*self);
        }
        self.enabled = self.dac_enabled;
        if self.length_counter == 0 {
            self.length_counter = 256;
        }
        self.sample_pos = 0;
        self.freq_timer = (2048 - self.freq as u32) * 2;
    }

    /// Clock length counter (frame sequencer steps 0, 2, 4, 6 — 256 Hz).
    pub fn clock_length(&mut self)
        ensures
            final(self)@ == old(self)@.clock_length(),
            final(self)@.wf(),
    {
        proof {
            use_type_invariant(&*self);
        }
        if self.length_enable && self.length_counter > 0 {
            self.length_counter -= 1;
            if self.length_counter == 0 {
                self.enabled = false;
            }
        }
    }

    /// Advance the frequency timer by `cycles` T-cycles and update sample position.
    pub fn step(&mut self, cycles: u32)
        ensures
            final(self)@ == old(self)@.step(cycles),
            final(self)@.wf(),
    {
        proof {
            use_type_invariant(&*self);
        }
        if !self.enabled {
            return;
        }
        let period: u32 = (2048 - self.freq as u32) * 2;
        if self.freq_timer <= cycles {
            let remainder = cycles - self.freq_timer;
            if remainder > 0 {
                let extra_steps = remainder / period;
                proof {
                    crate::bits::lemma_position_wrap(self.sample_pos, extra_steps);
                    vstd::arithmetic::div_mod::lemma_mod_bound(remainder as int, period as int);
                }
                self.sample_pos = ((self.sample_pos + 1) & 31).wrapping_add(extra_steps as u8) & 31;
                self.freq_timer = period - remainder % period;
            } else {
                proof {
                    crate::bits::lemma_position_wrap(self.sample_pos, 0);
                }
                assert(0int / (period as int) == 0 && 0int % (period as int) == 0) by (nonlinear_arith)
                    requires
                        period > 0;
                self.sample_pos = (self.sample_pos + 1) & 31;
                self.freq_timer = period;
            }
        } else {
            self.freq_timer -= cycles;
        }
    }

    /// Digital output of the channel (0–15) after the volume shift, or
    /// `None` when the channel or its DAC is off. The analog sample is this
    /// level mapped onto `[-1.0, 1.0]`.
    pub fn output(&self) -> (r: Option<u8>)
        ensures
            r == self@.output(),
    {
        proof {
            use_type_invariant(self);
        }
        if !self.enabled || !self.dac_enabled {
            return None;
        }
        let byte = self.wave_ram[(self.sample_pos / 2) as usize];
        let nibble = if self.sample_pos & 1 == 0 {
            (byte >> 4) & 0x0F  // high nibble for even position

        } else {
            byte & 0x0F  // low nibble for odd position

        };
        proof {
            crate::bits::lemma_u8_fields(self.sample_pos);
            crate::bits::lemma_u8_fields(byte);
        }
        let shifted = if self.output_level == 0 {
            0  // mute

        } else if self.output_level == 1 {
            nibble  // 100%

        } else if self.output_level == 2 {
            nibble >> 1  // 50%

        } else {
            nibble >> 2  // 25%

        };
        proof {
            crate::bits::lemma_u8_fields(nibble);
        }
        Some(shifted)
    }

    /// Returns true if the channel is currently active.
    pub fn active(&self) -> (r: bool)
        ensures
            r == (self@.enabled && self@.dac_enabled),
    {
        self.enabled && self.dac_enabled
    }
}

impl Default for CH3 {
    fn default() -> (c: Self)
        ensures
            c@ == CH3State::initial(),
            c@.wf(),
    {
        Self::new()
    }
}

/// NR32 reads back its output-level bits with the others set, NR30 reads
/// back its DAC bit, and wave RAM reads back what was written while the
/// channel is off.
pub proof fn lemma_ch3_register_read_back(s: CH3State, addr: u16, value: u8)
    requires
        s.wf(),
        !s.enabled,
        0xFF30 <= addr <= 0xFF3F,
    ensures
        s.write(0xFF1C, value).read(0xFF1C) == 0x9F | (value & 0x60),
        s.write(0xFF1A, value).read(0xFF1A) == 0x7F | (value & 0x80),
        s.write(addr, value).read(addr) == value,
{
    crate::bits::lemma_register_fields(value);
    crate::bits::lemma_u8_fields(value);
}

/// Wave RAM reads `0xFF` while the channel is active (enabled with its DAC
/// on) and otherwise reads back the last byte written to it; an enabled
/// channel always has its DAC on.
pub proof fn lemma_ch3_wave_ram_read(s: CH3State, addr: u16, value: u8)
    requires
        s.wf(),
        0xFF30 <= addr <= 0xFF3F,
    ensures
        s.enabled ==> s.dac_enabled,
        s.read(addr) == (if s.enabled && s.dac_enabled {
            0xFF
        } else {
            s.wave_ram[addr - 0xFF30]
        }),
        s.write(addr, value).read(addr) == (if s.enabled && s.dac_enabled {
            0xFF
        } else {
            value
        }),
{
}

/// Wave RAM keeps its bytes through steps, length clocks, and writes to any
/// other address, so a wave-RAM byte reads back what was last written to it
/// whenever the channel is not active; NR30, NR32 and NR34 likewise keep
/// what they read.
pub proof fn lemma_ch3_registers_kept(s: CH3State, addr: u16, other: u16, value: u8, cycles: u32)
    requires
        s.wf(),
        addr == 0xFF1A || addr == 0xFF1C || addr == 0xFF1E || 0xFF30 <= addr <= 0xFF3F,
        other != addr,
    ensures
        s.step(cycles).wave_ram == s.wave_ram,
        s.clock_length().wave_ram == s.wave_ram,
        0xFF30 <= addr <= 0xFF3F ==> s.write(other, value).wave_ram[addr - 0xFF30]
            == s.wave_ram[addr - 0xFF30],
        addr < 0xFF30 ==> s.step(cycles).read(addr) == s.read(addr),
        addr < 0xFF30 ==> s.clock_length().read(addr) == s.read(addr),
        addr < 0xFF30 ==> s.write(other, value).read(addr) == s.read(addr),
{
}

/// The wave channel's output level is always between 0 and 15, and muted
/// output (level 0) is silence.
pub proof fn lemma_ch3_output_range(s: CH3State)
    requires
        s.wf(),
    ensures
        s.output() matches Some(v) ==> v <= 15,
        s.enabled && s.dac_enabled && s.output_level == 0 ==> s.output() == Some(0u8),
{
    let byte = s.wave_ram[(s.sample_pos / 2) as int];
    crate::bits::lemma_u8_fields(byte);
    let n = s.nibble();
    crate::bits::lemma_u8_fields(n);
}

/// Stepping the channel `a` T-cycles and then `b` T-cycles lands in the same
/// state as stepping it `a + b` T-cycles at once.
pub proof fn lemma_ch3_step_additive(s: CH3State, a: u32, b: u32)
    requires
        s.wf(),
        a + b <= u32::MAX,
    ensures
        s.step(a).step(b) == s.step((a + b) as u32),
{
    if s.enabled {
        let t = s.freq_timer as int;
        let p = wave_period(s.freq);
        super::lemma_timer_additive(t, p, a as int, b as int);
        let s1 = s.step(a);
        let e1 = super::timer_edges(t, p, a as int);
        let e2 = super::timer_edges(s1.freq_timer as int, p, b as int);
        assert(s1.sample_pos == (s.sample_pos + e1) % 32);
        assert(s1.step(b).sample_pos == (s1.sample_pos + e2) % 32);
        assert(s.step((a + b) as u32).sample_pos == (s.sample_pos + super::timer_edges(t, p, a + b)) % 32);
        vstd::arithmetic::div_mod::lemma_fundamental_div_mod(s.sample_pos + e1, 32);
        vstd::arithmetic::div_mod::lemma_mod_multiples_vanish(
            -((s.sample_pos + e1) / 32),
            s.sample_pos + e1 + e2,
            32,
        );
    }
}

/// What the wave channel plays: the sample at the current position is the
/// high nibble of wave-RAM byte `pos / 2` for even positions and the low
/// nibble for odd ones; output level 1 plays it at full volume, 2 at half
/// and 3 at a quarter (rounding down), and 0 mutes it.
pub proof fn lemma_ch3_volume_shift(s: CH3State)
    requires
        s.wf(),
        s.enabled,
        s.dac_enabled,
    ensures
        ({
            let byte = s.wave_ram[(s.sample_pos / 2) as int];
            let sample: int = if s.sample_pos % 2 == 0 { (byte / 16) as int } else { (byte % 16) as int };
            s.output() == Some(
                (if s.output_level == 0 {
                    0
                } else if s.output_level == 1 {
                    sample
                } else if s.output_level == 2 {
                    sample / 2
                } else {
                    sample / 4
                }) as u8,
            )
        }),
{
    let byte = s.wave_ram[(s.sample_pos / 2) as int];
    assert((byte >> 4u8) == byte / 16 && (byte & 0x0F) == byte % 16) by (bit_vector);
    let x = s.nibble();
    assert((x >> 0u8) == x && (x >> 1u8) == x / 2 && (x >> 2u8) == x / 4) by (bit_vector);
}

/// While the wave channel plays, its sample position moves one of its 32
/// steps every `(2048 − freq) × 2` T-cycles: from a freshly reloaded timer,
/// fewer cycles leave the position where it is, and exactly that many
/// advance it by one (modulo 32) and reload the timer.
pub proof fn lemma_ch3_frequency(s: CH3State, cycles: u32)
    requires
        s.wf(),
        s.enabled,
        s.freq_timer == (2048 - s.freq) * 2,
        cycles <= (2048 - s.freq) * 2,
    ensures
        cycles < (2048 - s.freq) * 2 ==> s.step(cycles).sample_pos == s.sample_pos,
        cycles == (2048 - s.freq) * 2 ==> s.step(cycles).sample_pos == (s.sample_pos + 1) % 32
            && s.step(cycles).freq_timer == (2048 - s.freq) * 2,
{
    let period: int = (2048 - s.freq) * 2;
    assert(0int / period == 0 && 0int % period == 0) by (nonlinear_arith)
        requires
            period > 0;
}

} // verus!
