//! DMG APU Channel 2 — Pulse wave (no sweep).
//!
//! Registers:
//! - NR21 (`0xFF16`): duty cycle (bits 7-6), length data (bits 5-0)
//! - NR22 (`0xFF17`): initial volume (bits 7-4), envelope direction (bit 3), period (bits 2-0)
//! - NR23 (`0xFF18`): frequency low byte (write-only)
//! - NR24 (`0xFF19`): trigger (bit 7), length enable (bit 6), frequency high (bits 2-0)
use vstd::prelude::*;

verus! {

/// Duty cycle waveform table: one 8-step pattern per duty setting.
pub const DUTY_TABLE: [[u8; 8]; 4] = [
    [0, 0, 0, 0, 0, 0, 0, 1],  // 12.5%
    [1, 0, 0, 0, 0, 0, 0, 1],  // 25%
    [1, 0, 0, 0, 1, 1, 1, 1],  // 50%
    [0, 1, 1, 1, 1, 1, 1, 0],  // 75%
];

/// Output bit of duty pattern `duty` at waveform step `pos`.
pub open spec fn duty_bit(duty: u8, pos: u8) -> u8 {
    if duty == 0 {
        if pos == 7 { 1 } else { 0 }
    } else if duty == 1 {
        if pos == 0 || pos == 7 { 1 } else { 0 }
    } else if duty == 2 {
        if pos == 0 || pos >= 4 { 1 } else { 0 }
    } else {
        if pos == 0 || pos == 7 { 0 } else { 1 }
    }
}

/// Frequency-timer period of a pulse channel, in T-cycles.
pub open spec fn pulse_period(freq: u16) -> int {
    (2048 - freq) * 4
}

/// Abstract state of channel 2.
pub struct CH2State {
    pub duty: u8,
    pub length_counter: u8,
    pub initial_volume: u8,
    pub env_add: bool,
    pub env_period: u8,
    pub freq: u16,
    pub length_enable: bool,
    pub enabled: bool,
    pub dac_enabled: bool,
    pub freq_timer: u32,
    pub wave_pos: u8,
    pub env_volume: u8,
    pub env_timer: u8,
    pub env_running: bool,
}

impl CH2State {
    /// Power-on state: 50% duty, everything off.
    pub open spec fn initial() -> CH2State {
        CH2State {
            duty: 2,
            length_counter: 0,
            initial_volume: 0,
            env_add: false,
            env_period: 0,
            freq: 0,
            length_enable: false,
            enabled: false,
            dac_enabled: false,
            freq_timer: 8192,
            wave_pos: 0,
            env_volume: 0,
            env_timer: 0,
            env_running: false,
        }
    }

    pub open spec fn wf(self) -> bool {
        &&& self.duty <= 3
        &&& self.length_counter <= 64
        &&& self.initial_volume <= 15
        &&& self.env_period <= 7
        &&& self.freq <= 0x7FF
        &&& 1 <= self.freq_timer <= 8192
        &&& self.wave_pos <= 7
        &&& self.env_volume <= 15
        &&& self.env_timer <= 7
    }

    pub open spec fn read(self, addr: u16) -> u8 {
        if addr == 0xFF16 {
            0x3F | (self.duty << 6)
        } else if addr == 0xFF17 {
            (self.initial_volume << 4) | (if self.env_add { 0x08u8 } else { 0 }) | self.env_period
        } else if addr == 0xFF19 {
            0xBF | (if self.length_enable { 0x40u8 } else { 0 })
        } else {
            0xFF
        }
    }

    /// Trigger: the channel turns on if its DAC is on, an expired length
    /// counter restarts at 64, and the frequency timer and envelope reload.
    pub open spec fn trigger(self) -> CH2State {
        CH2State {
            enabled: self.dac_enabled,
            length_counter: if self.length_counter == 0 { 64 } else { self.length_counter },
            freq_timer: pulse_period(self.freq) as u32,
            env_volume: self.initial_volume,
            env_timer: self.env_period,
            env_running: true,
            ..self
        }
    }

    pub open spec fn write(self, addr: u16, value: u8) -> CH2State {
        if addr == 0xFF16 {
            CH2State { duty: (value >> 6) & 0x03, length_counter: (64 - (value & 0x3F)) as u8, ..self }
        } else if addr == 0xFF17 {
            let dac = value & 0xF8 != 0;
            CH2State {
                initial_volume: (value >> 4) & 0x0F,
                env_add: value & 0x08 != 0,
                env_period: value & 0x07,
                dac_enabled: dac,
                enabled: self.enabled && dac,
                ..self
            }
        } else if addr == 0xFF18 {
            CH2State { freq: (self.freq & 0x0700) | (value as u16), ..self }
        } else if addr == 0xFF19 {
            let s = CH2State {
                freq: (self.freq & 0x00FF) | (((value & 0x07) as u16) << 8),
                length_enable: value & 0x40 != 0,
                ..self
            };
            if value & 0x80 != 0 {
                s.trigger()
            } else {
                s
            }
        } else {
            self
        }
    }

    pub open spec fn clock_length(self) -> CH2State {
        if self.length_enable && self.length_counter > 0 {
            CH2State {
                length_counter: (self.length_counter - 1) as u8,
                enabled: self.enabled && self.length_counter != 1,
                ..self
            }
        } else {
            self
        }
    }

    pub open spec fn clock_envelope(self) -> CH2State {
        if self.env_period == 0 || !self.env_running {
            self
        } else {
            let timer: u8 = if self.env_timer > 0 { (self.env_timer - 1) as u8 } else { 0 };
            if timer != 0 {
                CH2State { env_timer: timer, ..self }
            } else if self.env_add && self.env_volume < 15 {
                CH2State { env_timer: self.env_period, env_volume: (self.env_volume + 1) as u8, ..self }
            } else if !self.env_add && self.env_volume > 0 {
                CH2State { env_timer: self.env_period, env_volume: (self.env_volume - 1) as u8, ..self }
            } else {
                CH2State { env_timer: self.env_period, env_running: false, ..self }
            }
        }
    }

    /// Advance the frequency timer by `cycles` T-cycles: the waveform moves
    /// one step each time the timer expires, and the timer then counts the
    /// period again.
    pub open spec fn step(self, cycles: u32) -> CH2State {
        if self.freq_timer <= cycles {
            let period = pulse_period(self.freq);
            let remainder = cycles - self.freq_timer;
            CH2State {
                wave_pos: ((self.wave_pos + 1 + remainder / period) % 8) as u8,
                freq_timer: (period - remainder % period) as u32,
                ..self
            }
        } else {
            CH2State { freq_timer: (self.freq_timer - cycles) as u32, ..self }
        }
    }

    /// Digital output of the channel (0–15), or `None` when it is silent
    /// because the channel or its DAC is off.
    pub open spec fn output(self) -> Option<u8> {
        if !self.enabled || !self.dac_enabled {
            None
        } else {
            Some((duty_bit(self.duty, self.wave_pos) * self.env_volume) as u8)
        }
    }
}

pub struct CH2 {
    duty: u8,
    length_counter: u8,
    initial_volume: u8,
    env_add: bool,
    env_period: u8,
    freq: u16,
    length_enable: bool,
    enabled: bool,
    dac_enabled: bool,
    freq_timer: u32,
    wave_pos: u8,
    env_volume: u8,
    env_timer: u8,
    env_running: bool,
}

impl View for CH2 {
    type V = CH2State;

    closed spec fn view(&self) -> CH2State {
        CH2State {
            duty: self.duty,
            length_counter: self.length_counter,
            initial_volume: self.initial_volume,
            env_add: self.env_add,
            env_period: self.env_period,
            freq: self.freq,
            length_enable: self.length_enable,
            enabled: self.enabled,
            dac_enabled: self.dac_enabled,
            freq_timer: self.freq_timer,
            wave_pos: self.wave_pos,
            env_volume: self.env_volume,
            env_timer: self.env_timer,
            env_running: self.env_running,
        }
    }
}

impl CH2 {
    #[verifier::type_invariant]
    closed spec fn inv(&self) -> bool {
        self@.wf()
    }

    pub fn new() -> (c: Self)
        ensures
            c@ == CH2State::initial(),
            c@.wf(),
    {
        CH2 {
            duty: 2,
            length_counter: 0,
            initial_volume: 0,
            env_add: false,
            env_period: 0,
            freq: 0,
            length_enable: false,
            enabled: false,
            dac_enabled: false,
            freq_timer: 8192,
            wave_pos: 0,
            env_volume: 0,
            env_timer: 0,
            env_running: false,
        }
    }

    /// Read an NR2x register.
    pub fn read(&self, addr: u16) -> (r: u8)
        ensures
            r == self@.read(addr),
            self@.wf(),
    {
        proof {
            use_type_invariant(self);
            crate::bits::lemma_u8_fields(self.duty);
            crate::bits::lemma_u8_fields(self.initial_volume);
            crate::bits::lemma_u8_fields(self.env_period);
        }
        if addr == 0xFF16 {
            0x3F | ((self.duty & 0x03) << 6)
        } else if addr == 0xFF17 {
            ((self.initial_volume & 0x0F) << 4) | (if self.env_add { 0x08u8 } else { 0 }) | (
            self.env_period & 0x07)
        } else if addr == 0xFF18 {
            0xFF  // write-only

        } else if addr == 0xFF19 {
            0xBF | (if self.length_enable { 0x40u8 } else { 0 })
        } else {
            0xFF
        }
    }
}

impl CH2 {
    /// Write an NR2x register.
    pub fn write(&mut self, addr: u16, value: u8)
        ensures
            final(self)@ == old(self)@.write(addr, value),
            final(self)@.wf(),
    {
        proof {
            use_type_invariant(&*self);
            crate::bits::lemma_u8_fields(value);
            crate::bits::lemma_freq_bits(self.freq, value);
        }
        if addr == 0xFF16 {
            self.duty = (value >> 6) & 0x03;
            self.length_counter = 64 - (value & 0x3F);
        } else if addr == 0xFF17 {
            self.initial_volume = (value >> 4) & 0x0F;
            self.env_add = (value & 0x08) != 0;
            self.env_period = value & 0x07;
            self.dac_enabled = (value & 0xF8) != 0;
            if !self.dac_enabled {
                self.enabled = false;
            }
        } else if addr == 0xFF18 {
            self.freq = (self.freq & 0x0700) | (value as u16);
        } else if addr == 0xFF19 {
            self.freq = (self.freq & 0x00FF) | (((value & 0x07) as u16) << 8);
            self.length_enable = (value & 0x40) != 0;
            if (value & 0x80) != 0 {
                self.trigger();
            }
        }
    }

    /// Trigger (NR24 bit 7 write).
    fn trigger(&mut self)
        ensures
            final(self)@ == old(self)@.trigger(),
    {
        proof {
            use_type_invariant(&*self);
        }
        self.enabled = self.dac_enabled;
        if self.length_counter == 0 {
            self.length_counter = 64;
        }
        self.freq_timer = (2048 - self.freq as u32) * 4;
        self.env_volume = self.initial_volume;
        self.env_timer = self.env_period;
        self.env_running = true;
    }

    /// Clock length counter (frame sequencer steps 0, 2, 4, 6 — 256 Hz).
    pub fn clock_length(&mut self)
        ensures
            final(self)@ == old(self)@.clock_length(),
            final(self)@.wf(),
    {
        proof {
            use_type_invariant(&*self);
        }
        if self.length_enable && self.length_counter > 0 {
            self.length_counter -= 1;
            if self.length_counter == 0 {
                self.enabled = false;
            }
        }
    }

    /// Clock volume envelope (frame sequencer step 7 — 64 Hz).
    pub fn clock_envelope(&mut self)
        ensures
            final(self)@ == old(self)@.clock_envelope(),
            final(self)@.wf(),
    {
        proof {
            use_type_invariant(&*self);
        }
        if self.env_period == 0 || !self.env_running {
            return;
        }
        if self.env_timer > 0 {
            self.env_timer -= 1;
        }
        if self.env_timer == 0 {
            self.env_timer = self.env_period;
            if self.env_add && self.env_volume < 15 {
                self.env_volume += 1;
            } else if !self.env_add && self.env_volume > 0 {
                self.env_volume -= 1;
            } else {
                self.env_running = false;
            }
        }
    }

    /// Advance the frequency timer by `cycles` T-cycles and update wave position.
    pub fn step(&mut self, cycles: u32)
        ensures
            final(self)@ == old(self)@.step(cycles),
            final(self)@.wf(),
    {
        proof {
            use_type_invariant(&*self);
        }
        if self.freq_timer <= cycles {
            let remainder = cycles - self.freq_timer;
            let period: u32 = (2048 - self.freq as u32) * 4;
            if remainder > 0 {
                let extra_steps = remainder / period;
                proof {
                    crate::bits::lemma_position_wrap(self.wave_pos, extra_steps);
                    vstd::arithmetic::div_mod::lemma_mod_bound(remainder as int, period as int);
                }
                self.wave_pos = ((self.wave_pos + 1) & 7).wrapping_add(extra_steps as u8) & 7;
                self.freq_timer = period - remainder % period;
            } else {
                proof {
                    crate::bits::lemma_position_wrap(self.wave_pos, 0);
                }
                assert(0int / (period as int) == 0 && 0int % (period as int) == 0) by (nonlinear_arith)
                    requires
                        period > 0;
                self.wave_pos = (self.wave_pos + 1) & 7;
                self.freq_timer = period;
            }
        } else {
            self.freq_timer -= cycles;
        }
    }

    /// Digital output of the channel (0–15), or `None` when the channel or
    /// its DAC is off. The analog sample is this level mapped onto
    /// `[-1.0, 1.0]`.
    pub fn output(&self) -> (r: Option<u8>)
        ensures
            r == self@.output(),
    {
        proof {
            use_type_invariant(self);
        }
        if !self.enabled || !self.dac_enabled {
            return None;
        }
        let bit = DUTY_TABLE[self.duty as usize][self.wave_pos as usize];
        proof {
            assert(DUTY_TABLE@[self.duty as int]@[self.wave_pos as int] == duty_bit(self.duty, self.wave_pos));
            assert(bit <= 1);
            assert(bit * self.env_volume <= 15) by (nonlinear_arith)
                requires
                    bit <= 1,
                    self.env_volume <= 15;
        }
        Some(bit * self.env_volume)
    }

    /// Returns true if the channel is currently active.
    pub fn active(&self) -> (r: bool)
        ensures
            r == (self@.enabled && self@.dac_enabled),
    {
        self.enabled && self.dac_enabled
    }
}

impl Default for CH2 {
    fn default() -> (c: Self)
        ensures
            c@.wf(),
            c@ == CH2State::initial(),
    {
        Self::new()
    }
}

/// NR22 reads back exactly what was written; NR21 reads back its duty bits
/// with the length bits set; NR24 reads back only its length-enable bit;
/// NR23 is write-only.
pub proof fn lemma_ch2_register_read_back(s: CH2State, value: u8)
    requires
        s.wf(),
    ensures
        s.write(0xFF17, value).read(0xFF17) == value,
        s.write(0xFF16, value).read(0xFF16) == value | 0x3F,
        s.write(0xFF19, value).read(0xFF19) == 0xBF | (value & 0x40),
        s.write(0xFF18, value).read(0xFF18) == 0xFF,
{
    crate::bits::lemma_register_fields(value);
    crate::bits::lemma_u8_fields(value);
}

/// The readable registers NR21, NR22 and NR24 keep what they read through
/// steps, length and envelope clocks, and writes to any other register;
/// NR23 always reads `0xFF`.
pub proof fn lemma_ch2_registers_kept(s: CH2State, addr: u16, other: u16, value: u8, cycles: u32)
    requires
        s.wf(),
        addr == 0xFF16 || addr == 0xFF17 || addr == 0xFF19,
        other != addr,
    ensures
        s.step(cycles).read(addr) == s.read(addr),
        s.clock_length().read(addr) == s.read(addr),
        s.clock_envelope().read(addr) == s.read(addr),
        s.write(other, value).read(addr) == s.read(addr),
        s.read(0xFF18) == 0xFF,
{
}

/// Writing NR22 with the upper five bits clear turns the DAC off and
/// silences the channel.
pub proof fn lemma_ch2_dac_off_silences(s: CH2State, value: u8)
    requires
        value & 0xF8 == 0,
    ensures
        s.write(0xFF17, value).output() is None,
{
}

/// When the length counter runs out with length enabled, the channel turns
/// off and falls silent.
pub proof fn lemma_ch2_length_expiry(s: CH2State)
    requires
        s.length_enable,
        s.length_counter == 1,
    ensures
        !s.clock_length().enabled,
        s.clock_length().output() is None,
{
}

/// Every operation keeps the channel well formed, so its output level is
/// always between 0 and 15.
pub proof fn lemma_ch2_output_range(s: CH2State)
    requires
        s.wf(),
    ensures
        s.output() matches Some(v) ==> v <= 15,
        s.clock_envelope().wf(),
        s.clock_length().wf(),
{
    assert(duty_bit(s.duty, s.wave_pos) <= 1);
    assert(duty_bit(s.duty, s.wave_pos) * s.env_volume <= 15) by (nonlinear_arith)
        requires
            duty_bit(s.duty, s.wave_pos) <= 1,
            s.env_volume <= 15;
}

/// Stepping the channel `a` T-cycles and then `b` T-cycles lands in the same
/// state as stepping it `a + b` T-cycles at once.
pub proof fn lemma_ch2_step_additive(s: CH2State, a: u32, b: u32)
    requires
        s.wf(),
        a + b <= u32::MAX,
    ensures
        s.step(a).step(b) == s.step((a + b) as u32),
{
    let t = s.freq_timer as int;
    let p = pulse_period(s.freq);
    super::lemma_timer_additive(t, p, a as int, b as int);
    let s1 = s.step(a);
    assert(s1.freq_timer == super::timer_left(t, p, a as int));
    assert(s1.wave_pos == (s.wave_pos + super::timer_edges(t, p, a as int)) % 8);
    assert(s1.step(b).wave_pos == (s1.wave_pos + super::timer_edges(s1.freq_timer as int, p, b as int)) % 8);
    assert(s.step((a + b) as u32).wave_pos == (s.wave_pos + super::timer_edges(t, p, a + b)) % 8);
    assert((s.wave_pos + super::timer_edges(t, p, a as int)) % 8 + super::timer_edges(s1.freq_timer as int, p, b as int)
        == s.wave_pos + super::timer_edges(t, p, a as int) + super::timer_edges(s1.freq_timer as int, p, b as int)
        - 8 * ((s.wave_pos + super::timer_edges(t, p, a as int)) / 8)) by {
        vstd::arithmetic::div_mod::lemma_fundamental_div_mod(s.wave_pos + super::timer_edges(t, p, a as int), 8);
    }
    vstd::arithmetic::div_mod::lemma_mod_multiples_vanish(
        -((s.wave_pos + super::timer_edges(t, p, a as int)) / 8),
        s.wave_pos + super::timer_edges(t, p, a as int) + super::timer_edges(s1.freq_timer as int, p, b as int),
        8,
    );
}

/// The channel after `k` envelope clocks.
pub open spec fn ch2_envelope_clocks(s: CH2State, k: nat) -> CH2State
    decreases k,
{
    if k == 0 {
        s
    } else {
        ch2_envelope_clocks(s, (k - 1) as nat).clock_envelope()
    }
}

/// Fewer than `period` envelope clocks from a freshly loaded envelope timer
/// only count the timer down.
proof fn lemma_ch2_envelope_countdown(s: CH2State, k: nat)
    requires
        s.env_period > 0,
        s.env_running,
        s.env_timer == s.env_period,
        k < s.env_period,
    ensures
        ch2_envelope_clocks(s, k) == (CH2State { env_timer: (s.env_period - k) as u8, ..s }),
    decreases k,
{
    if k > 0 {
        lemma_ch2_envelope_countdown(s, (k - 1) as nat);
    }
}

/// Volume envelope: from a freshly loaded envelope timer with period
/// `p > 0`, the volume holds for `p − 1` envelope clocks and moves one step
/// at the `p`-th: up by one in increase mode (bit 3 of NRx2) unless already
/// 15, down by one in decrease mode unless already 0. The timer then
/// reloads, and the envelope keeps running only if the volume moved.
pub proof fn lemma_ch2_envelope_period(s: CH2State, k: nat)
    requires
        s.env_period > 0,
        s.env_running,
        s.env_timer == s.env_period,
        s.env_volume <= 15,
        k <= s.env_period,
    ensures
        ({
            let t = ch2_envelope_clocks(s, k);
            let v = s.env_volume as int;
            &&& k < s.env_period ==> t.env_volume == v && t.env_running
            &&& k == s.env_period ==> {
                &&& t.env_volume == (if s.env_add {
                    if v < 15 { v + 1 } else { 15 }
                } else {
                    if v > 0 { v - 1 } else { 0 }
                })
                &&& t.env_timer == s.env_period
                &&& t.env_running == (if s.env_add { v < 15 } else { v > 0 })
            }
        }),
{
    if k < s.env_period {
        lemma_ch2_envelope_countdown(s, k);
    } else {
        lemma_ch2_envelope_countdown(s, (k - 1) as nat);
    }
}

/// After a trigger with envelope period `p > 0` and initial volume `v`, the
/// volume is `v` for the first `p − 1` envelope clocks and `v + 1` (increase
/// mode, `v < 15`) or `v − 1` (decrease mode, `v > 0`) after `p` of them.
pub proof fn lemma_ch2_envelope_after_trigger(s: CH2State, k: nat)
    requires
        s.wf(),
        s.env_period > 0,
        k <= s.env_period,
    ensures
        ({
            let t = ch2_envelope_clocks(s.trigger(), k);
            let v = s.initial_volume as int;
            &&& k < s.env_period ==> t.env_volume == v
            &&& k == s.env_period && s.env_add && v < 15 ==> t.env_volume == v + 1
            &&& k == s.env_period && !s.env_add && v > 0 ==> t.env_volume == v - 1
        }),
{
    lemma_ch2_envelope_period(s.trigger(), k);
}

/// The pulse waveform moves one of its 8 steps every `(2048 − freq) × 4`
/// T-cycles: from a freshly reloaded frequency timer, fewer cycles leave the
/// step where it is, and exactly that many advance it by one (modulo 8) and
/// reload the timer.
pub proof fn lemma_ch2_frequency(s: CH2State, cycles: u32)
    requires
        s.wf(),
        s.freq_timer == (2048 - s.freq) * 4,
        cycles <= (2048 - s.freq) * 4,
    ensures
        cycles < (2048 - s.freq) * 4 ==> s.step(cycles).wave_pos == s.wave_pos,
        cycles == (2048 - s.freq) * 4 ==> s.step(cycles).wave_pos == (s.wave_pos + 1) % 8
            && s.step(cycles).freq_timer == (2048 - s.freq) * 4,
{
    let period: int = (2048 - s.freq) * 4;
    assert(0int / period == 0 && 0int % period == 0) by (nonlinear_arith)
        requires
            period > 0;
}

} // verus!
