//! DMG APU Channel 4 — Noise via LFSR.
//!
//! Registers:
//! - NR41 (`0xFF20`): length data (bits 5-0)
//! - NR42 (`0xFF21`): initial volume (bits 7-4), envelope direction (bit 3), period (bits 2-0)
//! - NR43 (`0xFF22`): clock shift (bits 7-4), LFSR width (bit 3), divider ratio (bits 2-0)
//! - NR44 (`0xFF23`): trigger (bit 7), length enable (bit 6)
use vstd::prelude::*;

verus! {

/// Timer period selected by NR43: a base of 8 for divider 0 and
/// `divider * 16` otherwise, shifted left by the clock shift.
pub open spec fn noise_period(divider: u8, clock_shift: u8) -> u32 {
    let base: u32 = if divider == 0 { 8 } else { (divider * 16) as u32 };
    base << clock_shift
}

/// One LFSR clock: the XOR of bits 0 and 1 is shifted in at bit 14 (and
/// also at bit 6 in 7-bit mode).
pub open spec fn lfsr_next(lfsr: u16, short_mode: bool) -> u16 {
    let xor_bit: u16 = (lfsr & 1) ^ ((lfsr >> 1) & 1);
    let shifted: u16 = (lfsr >> 1) | (xor_bit << 14);
    if short_mode {
        (shifted & !0x40u16) | (xor_bit << 6)
    } else {
        shifted
    }
}

/// Abstract state of channel 4.
pub struct CH4State {
    pub length_counter: u8,
    pub initial_volume: u8,
    pub env_add: bool,
    pub env_period: u8,
    pub clock_shift: u8,
    pub short_mode: bool,
    pub divider: u8,
    pub length_enable: bool,
    pub enabled: bool,
    pub dac_enabled: bool,
    pub lfsr: u16,
    pub freq_timer: u32,
    pub env_volume: u8,
    pub env_timer: u8,
    pub env_running: bool,
}

impl CH4State {
    /// Power-on state: silent, LFSR all ones.
    pub open spec fn initial() -> CH4State {
        CH4State {
            length_counter: 0,
            initial_volume: 0,
            env_add: false,
            env_period: 0,
            clock_shift: 0,
            short_mode: false,
            divider: 0,
            length_enable: false,
            enabled: false,
            dac_enabled: false,
            lfsr: 0x7FFF,
            freq_timer: 8,
            env_volume: 0,
            env_timer: 0,
            env_running: false,
        }
    }

    pub open spec fn wf(self) -> bool {
        &&& self.length_counter <= 64
        &&& self.initial_volume <= 15
        &&& self.env_period <= 7
        &&& self.clock_shift <= 15
        &&& self.divider <= 7
        &&& self.lfsr < 0x8000
        &&& self.freq_timer >= 1
        &&& self.env_volume <= 15
        &&& self.env_timer <= 7
    }

    pub open spec fn period(self) -> u32 {
        noise_period(self.divider, self.clock_shift)
    }

    pub open spec fn read(self, addr: u16) -> u8 {
        if addr == 0xFF21 {
            (self.initial_volume << 4) | (if self.env_add { 0x08u8 } else { 0 }) | self.env_period
        } else if addr == 0xFF22 {
            (self.clock_shift << 4) | (if self.short_mode { 0x08u8 } else { 0 }) | self.divider
        } else if addr == 0xFF23 {
            0xBF | (if self.length_enable { 0x40u8 } else { 0 })
        } else {
            0xFF
        }
    }

    /// Trigger: the channel turns on if its DAC is on, an expired length
    /// counter restarts at 64, the envelope and the frequency timer reload
    /// and the LFSR resets to all ones.
    pub open spec fn trigger(self) -> CH4State {
        CH4State {
            enabled: self.dac_enabled,
            length_counter: if self.length_counter == 0 { 64 } else { self.length_counter },
            env_volume: self.initial_volume,
            env_timer: self.env_period,
            env_running: true,
            lfsr: 0x7FFF,
            freq_timer: self.period(),
            ..self
        }
    }

    pub open spec fn write(self, addr: u16, value: u8) -> CH4State {
        if addr == 0xFF20 {
            CH4State { length_counter: (64 - (value & 0x3F)) as u8, ..self }
        } else if addr == 0xFF21 {
            let dac = value & 0xF8 != 0;
            CH4State {
                initial_volume: (value >> 4) & 0x0F,
                env_add: value & 0x08 != 0,
                env_period: value & 0x07,
                dac_enabled: dac,
                enabled: self.enabled && dac,
                ..self
            }
        } else if addr == 0xFF22 {
            CH4State {
                clock_shift: (value >> 4) & 0x0F,
                short_mode: value & 0x08 != 0,
                divider: value & 0x07,
                ..self
            }
        } else if addr == 0xFF23 {
            let s = CH4State { length_enable: value & 0x40 != 0, ..self };
            if value & 0x80 != 0 {
                s.trigger()
            } else {
                s
            }
        } else {
            self
        }
    }

    pub open spec fn clock_length(self) -> CH4State {
        if self.length_enable && self.length_counter > 0 {
            CH4State {
                length_counter: (self.length_counter - 1) as u8,
                enabled: self.enabled && self.length_counter != 1,
                ..self
            }
        } else {
            self
        }
    }

    pub open spec fn clock_envelope(self) -> CH4State {
        if self.env_period == 0 || !self.env_running {
            self
        } else {
            let timer: u8 = if self.env_timer > 0 { (self.env_timer - 1) as u8 } else { 0 };
            if timer != 0 {
                CH4State { env_timer: timer, ..self }
            } else if self.env_add && self.env_volume < 15 {
                CH4State { env_timer: self.env_period, env_volume: (self.env_volume + 1) as u8, ..self }
            } else if !self.env_add && self.env_volume > 0 {
                CH4State { env_timer: self.env_period, env_volume: (self.env_volume - 1) as u8, ..self }
            } else {
                CH4State { env_timer: self.env_period, env_running: false, ..self }
            }
        }
    }

    /// Let `remaining` T-cycles pass: each time the frequency timer expires the
    /// LFSR is clocked and the timer reloads with the period.
    pub open spec fn run_timer(self, remaining: u32) -> CH4State
        decreases remaining,
    {
        if remaining == 0 || self.freq_timer == 0 {
            self
        } else if self.freq_timer <= remaining {
            CH4State {
                lfsr: lfsr_next(self.lfsr, self.short_mode),
                freq_timer: self.period(),
                ..self
            }.run_timer((remaining - self.freq_timer) as u32)
        } else {
            CH4State { freq_timer: (self.freq_timer - remaining) as u32, ..self }
        }
    }

    pub open spec fn step(self, cycles: u32) -> CH4State {
        if !self.enabled {
            self
        } else {
            self.run_timer(cycles)
        }
    }

    /// Digital output (0–15): the inverted LFSR bit 0 times the envelope
    /// volume, or `None` when the channel or its DAC is off.
    pub open spec fn output(self) -> Option<u8> {
        if !self.enabled || !self.dac_enabled {
            None
        } else if self.lfsr & 1 == 0 {
            Some(self.env_volume)
        } else {
            Some(0)
        }
    }
}

pub struct CH4 {
    length_counter: u8,
    initial_volume: u8,
    env_add: bool,
    env_period: u8,
    clock_shift: u8,
    short_mode: bool,
    divider: u8,
    length_enable: bool,
    enabled: bool,
    dac_enabled: bool,
    /// 15-bit LFSR (only bits 14-0 used).
    lfsr: u16,
    /// Frequency timer (counts down in T-cycles).
    freq_timer: u32,
    env_volume: u8,
    env_timer: u8,
    env_running: bool,
}

impl View for CH4 {
    type V = CH4State;

    closed spec fn view(&self) -> CH4State {
        CH4State {
            length_counter: self.length_counter,
            initial_volume: self.initial_volume,
            env_add: self.env_add,
            env_period: self.env_period,
            clock_shift: self.clock_shift,
            short_mode: self.short_mode,
            divider: self.divider,
            length_enable: self.length_enable,
            enabled: self.enabled,
            dac_enabled: self.dac_enabled,
            lfsr: self.lfsr,
            freq_timer: self.freq_timer,
            env_volume: self.env_volume,
            env_timer: self.env_timer,
            env_running: self.env_running,
        }
    }
}

/// The noise period is between 8 and `112 << 15` T-cycles.
pub proof fn lemma_noise_period_bounds(divider: u8, clock_shift: u8)
    requires
        divider <= 7,
        clock_shift <= 15,
    ensures
        8 <= noise_period(divider, clock_shift) <= 0x0038_0000,
{
    let base: u32 = if divider == 0 { 8 } else { (divider * 16) as u32 };
    assert(8 <= base <= 112);
    assert(8 <= (base << clock_shift) <= 0x0038_0000) by (bit_vector)
        requires
            8 <= base <= 112,
            clock_shift <= 15;
}

/// One LFSR clock keeps the register within 15 bits.
pub proof fn lemma_lfsr_next_bounded(lfsr: u16, short_mode: bool)
    requires
        lfsr < 0x8000,
    ensures
        lfsr_next(lfsr, short_mode) < 0x8000,
{
    let xor_bit: u16 = (lfsr & 1) ^ ((lfsr >> 1) & 1);
    let shifted: u16 = (lfsr >> 1) | (xor_bit << 14);
    assert(shifted < 0x8000 && (shifted & !0x40u16) | (xor_bit << 6) < 0x8000) by (bit_vector)
        requires
            lfsr < 0x8000,
            xor_bit == (lfsr & 1) ^ ((lfsr >> 1) & 1),
            shifted == (lfsr >> 1) | (xor_bit << 14);
}

impl CH4 {
    #[verifier::type_invariant]
    closed spec fn inv(&self) -> bool {
        self@.wf()
    }

    pub fn new() -> (c: Self)
        ensures
            c@ == CH4State::initial(),
            c@.wf(),
    {
        CH4 {
            length_counter: 0,
            initial_volume: 0,
            env_add: false,
            env_period: 0,
            clock_shift: 0,
            short_mode: false,
            divider: 0,
            length_enable: false,
            enabled: false,
            dac_enabled: false,
            lfsr: 0x7FFF,
            freq_timer: 8,
            env_volume: 0,
            env_timer: 0,
            env_running: false,
        }
    }

    /// Compute the timer period from current NR43 settings.
    fn timer_period(&self) -> (p: u32)
        ensures
            p == self@.period(),
            8 <= p <= 0x0038_0000,
    {
        proof {
            use_type_invariant(self);
            lemma_noise_period_bounds(self.divider, self.clock_shift);
        }
        let base: u32 = if self.divider == 0 { 8 } else { (self.divider as u32) * 16 };
        base << self.clock_shift
    }

    /// Read an NR4x register.
    pub fn read(&self, addr: u16) -> (r: u8)
        ensures
            r == self@.read(addr),
            self@.wf(),
    {
        proof {
            use_type_invariant(self);
            crate::bits::lemma_u8_fields(self.initial_volume);
            crate::bits::lemma_u8_fields(self.env_period);
            crate::bits::lemma_u8_fields(self.clock_shift);
            crate::bits::lemma_u8_fields(self.divider);
        }
        if addr == 0xFF20 {
            0xFF  // write-only

        } else if addr == 0xFF21 {
            ((self.initial_volume & 0x0F) << 4) | (if self.env_add { 0x08u8 } else { 0 }) | (
            self.env_period & 0x07)
        } else if addr == 0xFF22 {
            ((self.clock_shift & 0x0F) << 4) | (if self.short_mode { 0x08u8 } else { 0 }) | (
            self.divider & 0x07)
        } else if addr == 0xFF23 {
            0xBF | (if self.length_enable { 0x40u8 } else { 0 })
        } else {
            0xFF
        }
    }

    /// Write an NR4x register.
    pub fn write(&mut self, addr: u16, value: u8)
        ensures
            final(self)@ == old(self)@.write(addr, value),
            final(self)@.wf(),
    {
        proof {
            use_type_invariant(&*self);
            crate::bits::lemma_u8_fields(value);
        }
        if addr == 0xFF20 {
            self.length_counter = 64 - (value & 0x3F);
        } else if addr == 0xFF21 {
            self.initial_volume = (value >> 4) & 0x0F;
            self.env_add = (value & 0x08) != 0;
            self.env_period = value & 0x07;
            self.dac_enabled = (value & 0xF8) != 0;
            if !self.dac_enabled {
                self.enabled = false;
            }
        } else if addr == 0xFF22 {
            self.clock_shift = (value >> 4) & 0x0F;
            self.short_mode = (value & 0x08) != 0;
            self.divider = value & 0x07;
        } else if addr == 0xFF23 {
            self.length_enable = (value & 0x40) != 0;
            if (value & 0x80) != 0 {
                self.trigger();
            }
        }
    }

    fn trigger(&mut self)
        ensures
            final(self)@ == old(self)@.trigger(),
            final(self)@.wf(),
    {
        proof {
            use_type_invariant(&*self);
        }
        self.enabled = self.dac_enabled;
        if self.length_counter == 0 {
            self.length_counter = 64;
        }
        self.env_volume = self.initial_volume;
        self.env_timer = self.env_period;
        self.env_running = true;
        self.lfsr = 0x7FFF;
        self.freq_timer = self.timer_period();
    }

    /// Clock length counter (frame sequencer steps 0, 2, 4, 6 — 256 Hz).
    pub fn clock_length(&mut self)
        ensures
            final(self)@ == old(self)@.clock_length(),
            final(self)@.wf(),
    {
        proof {
            use_type_invariant(&*self);
        }
        if self.length_enable && self.length_counter > 0 {
            self.length_counter -= 1;
            if self.length_counter == 0 {
                self.enabled = false;
            }
        }
    }

    /// Clock volume envelope (frame sequencer step 7 — 64 Hz).
    pub fn clock_envelope(&mut self)
        ensures
            final(self)@ == old(self)@.clock_envelope(),
            final(self)@.wf(),
    {
        proof {
            use_type_invariant(&*self);
        }
        if self.env_period == 0 || !self.env_running {
            return;
        }
        if self.env_timer > 0 {
            self.env_timer -= 1;
        }
        if self.env_timer == 0 {
            self.env_timer = self.env_period;
            if self.env_add && self.env_volume < 15 {
                self.env_volume += 1;
            } else if !self.env_add && self.env_volume > 0 {
                self.env_volume -= 1;
            } else {
                self.env_running = false;
            }
        }
    }

    /// Advance the LFSR timer by `cycles` T-cycles.
    pub fn step(&mut self, cycles: u32)
        ensures
            final(self)@ == old(self)@.step(cycles),
            final(self)@.wf(),
    {
        proof {
            use_type_invariant(&*self);
        }
        if !self.enabled {
            return;
        }
        let mut remaining = cycles;
        while remaining > 0
            invariant
                self@.wf(),
                self@.enabled,
                self@.run_timer(remaining) == old(self)@.run_timer(cycles),
            decreases remaining,
        {
            proof {
                use_type_invariant(&*self);
            }
            if self.freq_timer <= remaining {
                remaining -= self.freq_timer;
                self.clock_lfsr();
                self.freq_timer = self.timer_period();
            } else {
                self.freq_timer -= remaining;
                remaining = 0;
            }
        }
    }

    fn clock_lfsr(&mut self)
        ensures
            final(self)@ == (CH4State { lfsr: lfsr_next(old(self)@.lfsr, old(self)@.short_mode), ..old(self)@ }),
            final(self)@.wf(),
    {
        proof {
            use_type_invariant(&*self);
            lemma_lfsr_next_bounded(self.lfsr, self.short_mode);
        }
        let lfsr = self.lfsr;
        let xor_bit = (lfsr & 1) ^ ((lfsr >> 1) & 1);
        let shifted = (lfsr >> 1) | (xor_bit << 14);
        let next = if self.short_mode {
            (shifted & !(1u16 << 6)) | (xor_bit << 6)
        } else {
            shifted
        };
        proof {
            crate::bits::lemma_shift_constants();
            assert(next == lfsr_next(lfsr, self.short_mode));
        }
        self.lfsr = next;
    }

    /// Digital output of the channel (0–15), or `None` when the channel or
    /// its DAC is off. The analog sample is this level mapped onto
    /// `[-1.0, 1.0]`.
    pub fn output(&self) -> (r: Option<u8>)
        ensures
            r == self@.output(),
    {
        if !self.enabled || !self.dac_enabled {
            return None;
        }
        // Output bit is the inverted LSB.
        if (self.lfsr & 1) == 0 {
            Some(self.env_volume)
        } else {
            Some(0)
        }
    }
}

impl Default for CH4 {
    fn default() -> (c: Self)
        ensures
            c@ == CH4State::initial(),
            c@.wf(),
    {
        Self::new()
    }
}

/// NR42 and NR43 read back exactly what was written; NR44 reads back only
/// its length-enable bit.
pub proof fn lemma_ch4_register_read_back(s: CH4State, value: u8)
    requires
        s.wf(),
    ensures
        s.write(0xFF21, value).read(0xFF21) == value,
        s.write(0xFF22, value).read(0xFF22) == value,
        s.write(0xFF23, value).read(0xFF23) == 0xBF | (value & 0x40),
{
    crate::bits::lemma_register_fields(value);
    crate::bits::lemma_u8_fields(value);
}

/// Letting time pass on the noise timer changes only the LFSR and the
/// frequency timer.
proof fn lemma_run_timer_keeps(s: CH4State, remaining: u32)
    ensures
        s.run_timer(remaining) == (CH4State {
            lfsr: s.run_timer(remaining).lfsr,
            freq_timer: s.run_timer(remaining).freq_timer,
            ..s
        }),
    decreases remaining,
{
    if remaining == 0 || s.freq_timer == 0 {
    } else if s.freq_timer <= remaining {
        let s2 = CH4State { lfsr: lfsr_next(s.lfsr, s.short_mode), freq_timer: s.period(), ..s };
        lemma_run_timer_keeps(s2, (remaining - s.freq_timer) as u32);
    }
}

/// The readable registers NR42, NR43 and NR44 keep what they read through
/// steps, length and envelope clocks, and writes to any other register;
/// NR41 always reads `0xFF`.
pub proof fn lemma_ch4_registers_kept(s: CH4State, addr: u16, other: u16, value: u8, cycles: u32)
    requires
        s.wf(),
        addr == 0xFF21 || addr == 0xFF22 || addr == 0xFF23,
        other != addr,
    ensures
        s.step(cycles).read(addr) == s.read(addr),
        s.clock_length().read(addr) == s.read(addr),
        s.clock_envelope().read(addr) == s.read(addr),
        s.write(other, value).read(addr) == s.read(addr),
        s.read(0xFF20) == 0xFF,
{
    lemma_run_timer_keeps(s, cycles);
}

/// Triggering resets the LFSR to all ones; clocking the LFSR keeps it within
/// 15 bits; the output level is always between 0 and 15.
pub proof fn lemma_ch4_lfsr(s: CH4State)
    requires
        s.wf(),
    ensures
        s.trigger().lfsr == 0x7FFF,
        lfsr_next(s.lfsr, s.short_mode) < 0x8000,
        s.output() matches Some(v) ==> v <= 15,
{
    lemma_lfsr_next_bounded(s.lfsr, s.short_mode);
}

/// Letting `a` T-cycles and then `b` T-cycles pass on the noise timer lands
/// in the same state as letting `a + b` T-cycles pass at once.
pub proof fn lemma_ch4_run_timer_additive(s: CH4State, a: u32, b: u32)
    requires
        a + b <= u32::MAX,
    ensures
        s.run_timer(a).run_timer(b) == s.run_timer((a + b) as u32),
    decreases a,
{
    if a > 0 && s.freq_timer > 0 {
        if s.freq_timer <= a {
            let s1 = CH4State { lfsr: lfsr_next(s.lfsr, s.short_mode), freq_timer: s.period(), ..s };
            lemma_ch4_run_timer_additive(s1, (a - s.freq_timer) as u32, b);
            assert((a - s.freq_timer) as u32 + b == (a + b - s.freq_timer) as u32);
        }
    }
}

/// Stepping the noise channel `a` T-cycles and then `b` T-cycles lands in the
/// same state as stepping it `a + b` T-cycles at once.
pub proof fn lemma_ch4_step_additive(s: CH4State, a: u32, b: u32)
    requires
        a + b <= u32::MAX,
    ensures
        s.step(a).step(b) == s.step((a + b) as u32),
{
    lemma_ch4_run_timer_enabled(s, a);
    lemma_ch4_run_timer_additive(s, a, b);
}

/// Running the noise timer never changes whether the channel is enabled.
proof fn lemma_ch4_run_timer_enabled(s: CH4State, n: u32)
    ensures
        s.run_timer(n).enabled == s.enabled,
    decreases n,
{
    if n > 0 && s.freq_timer > 0 && s.freq_timer <= n {
        let s1 = CH4State { lfsr: lfsr_next(s.lfsr, s.short_mode), freq_timer: s.period(), ..s };
        lemma_ch4_run_timer_enabled(s1, (n - s.freq_timer) as u32);
    }
}

/// The channel after `k` envelope clocks.
pub open spec fn ch4_envelope_clocks(s: CH4State, k: nat) -> CH4State
    decreases k,
{
    if k == 0 {
        s
    } else {
        ch4_envelope_clocks(s, (k - 1) as nat).clock_envelope()
    }
}

/// Fewer than `period` envelope clocks from a freshly loaded envelope timer
/// only count the timer down.
proof fn lemma_ch4_envelope_countdown(s: CH4State, k: nat)
    requires
        s.env_period > 0,
        s.env_running,
        s.env_timer == s.env_period,
        k < s.env_period,
    ensures
        ch4_envelope_clocks(s, k) == (CH4State { env_timer: (s.env_period - k) as u8, ..s }),
    decreases k,
{
    if k > 0 {
        lemma_ch4_envelope_countdown(s, (k - 1) as nat);
    }
}

/// Volume envelope: from a freshly loaded envelope timer with period
/// `p > 0`, the volume holds for `p − 1` envelope clocks and moves one step
/// at the `p`-th: up by one in increase mode (bit 3 of NRx2) unless already
/// 15, down by one in decrease mode unless already 0. The timer then
/// reloads, and the envelope keeps running only if the volume moved.
pub proof fn lemma_ch4_envelope_period(s: CH4State, k: nat)
    requires
        s.env_period > 0,
        s.env_running,
        s.env_timer == s.env_period,
        s.env_volume <= 15,
        k <= s.env_period,
    ensures
        ({
            let t = ch4_envelope_clocks(s, k);
            let v = s.env_volume as int;
            &&& k < s.env_period ==> t.env_volume == v && t.env_running
            &&& k == s.env_period ==> {
                &&& t.env_volume == (if s.env_add {
                    if v < 15 { v + 1 } else { 15 }
                } else {
                    if v > 0 { v - 1 } else { 0 }
                })
                &&& t.env_timer == s.env_period
                &&& t.env_running == (if s.env_add { v < 15 } else { v > 0 })
            }
        }),
{
    if k < s.env_period {
        lemma_ch4_envelope_countdown(s, k);
    } else {
        lemma_ch4_envelope_countdown(s, (k - 1) as nat);
    }
}

/// After a trigger with envelope period `p > 0` and initial volume `v`, the
/// volume is `v` for the first `p − 1` envelope clocks and `v + 1` (increase
/// mode, `v < 15`) or `v − 1` (decrease mode, `v > 0`) after `p` of them.
pub proof fn lemma_ch4_envelope_after_trigger(s: CH4State, k: nat)
    requires
        s.wf(),
        s.env_period > 0,
        k <= s.env_period,
    ensures
        ({
            let t = ch4_envelope_clocks(s.trigger(), k);
            let v = s.initial_volume as int;
            &&& k < s.env_period ==> t.env_volume == v
            &&& k == s.env_period && s.env_add && v < 15 ==> t.env_volume == v + 1
            &&& k == s.env_period && !s.env_add && v > 0 ==> t.env_volume == v - 1
        }),
{
    lemma_ch4_envelope_period(s.trigger(), k);
}

/// The noise timer's period is 8 T-cycles for divider code 0 and 16 × code
/// otherwise, doubled for each step of the clock shift.
pub proof fn lemma_noise_period_doubles(divider: u8, clock_shift: u8)
    requires
        divider <= 7,
        clock_shift < 15,
    ensures
        noise_period(divider, 0) == (if divider == 0 { 8 } else { 16 * divider }),
        noise_period(divider, (clock_shift + 1) as u8) == 2 * noise_period(divider, clock_shift),
{
    let base: u32 = if divider == 0 { 8 } else { (divider * 16) as u32 };
    assert((base << 0u8) == base && (base << ((clock_shift + 1) as u8)) == 2 * (base << clock_shift))
        by (bit_vector)
        requires
            base <= 112,
            clock_shift < 15;
}

/// One LFSR clock shifts the 15-bit register right by one and feeds the XOR
/// of its two lowest bits in at bit 14; in 7-bit mode the same bit also
/// replaces bit 6.
pub proof fn lemma_lfsr_shift(lfsr: u16, short_mode: bool)
    requires
        lfsr < 0x8000,
    ensures
        ({
            let next = lfsr_next(lfsr, short_mode);
            let feedback = (lfsr & 1) ^ ((lfsr >> 1) & 1);
            &&& next >> 14 == feedback
            &&& !short_mode ==> next & 0x3FFF == (lfsr >> 1) & 0x3FFF
            &&& short_mode ==> next & 0x3FBF == (lfsr >> 1) & 0x3FBF && (next >> 6) & 1 == feedback
        }),
{
    let next = lfsr_next(lfsr, short_mode);
    let x: u16 = (lfsr & 1) ^ ((lfsr >> 1) & 1);
    let shifted: u16 = (lfsr >> 1) | (x << 14);
    assert({
        &&& shifted >> 14 == x
        &&& shifted & 0x3FFF == (lfsr >> 1) & 0x3FFF
        &&& ((shifted & !0x40u16) | (x << 6)) >> 14 == x
        &&& ((shifted & !0x40u16) | (x << 6)) & 0x3FBF == (lfsr >> 1) & 0x3FBF
        &&& (((shifted & !0x40u16) | (x << 6)) >> 6) & 1 == x
    }) by (bit_vector)
        requires
            lfsr < 0x8000,
            x == (lfsr & 1) ^ ((lfsr >> 1) & 1),
            shifted == (lfsr >> 1) | (x << 14);
}

/// The noise channel clocks its LFSR once per timer period: from a freshly
/// reloaded timer, fewer T-cycles leave the LFSR as it is, and exactly one
/// period clocks it once and reloads the timer.
pub proof fn lemma_ch4_one_lfsr_clock(s: CH4State, cycles: u32)
    requires
        s.wf(),
        s.freq_timer == s.period(),
        cycles <= s.period(),
    ensures
        cycles < s.period() ==> s.run_timer(cycles).lfsr == s.lfsr,
        cycles == s.period() ==> s.run_timer(cycles).lfsr == lfsr_next(s.lfsr, s.short_mode)
            && s.run_timer(cycles).freq_timer == s.period(),
{
    lemma_noise_period_bounds(s.divider, s.clock_shift);
    let s2 = CH4State { lfsr: lfsr_next(s.lfsr, s.short_mode), freq_timer: s.period(), ..s };
    assert(s2.run_timer(0) == s2);
}

} // verus!
