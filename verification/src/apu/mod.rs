use vstd::prelude::*;

pub mod ch2;
pub mod ch3;
pub mod ch4;

pub use ch2::CH2;
pub use ch3::CH3;
pub use ch4::CH4;

verus! {

/// Abstract state of the APU frame sequencer.
pub struct APUState {
    /// Current frame sequencer step (0–7).
    pub frame_seq_step: u8,
    /// Last observed value of bit 12 of the DIV counter.
    pub last_div_bit: bool,
}

/// Bit 12 of the internal DIV counter (bit 4 of the DIV register).
pub open spec fn div_bit_12(div_counter: u16) -> bool {
    (div_counter >> 12) & 1 != 0
}

impl APUState {
    pub open spec fn wf(self) -> bool {
        self.frame_seq_step < 8
    }

    /// The frame sequencer advances one step (modulo 8) on each falling edge of
    /// DIV-counter bit 12.
    pub open spec fn step(self, div_counter: u16) -> APUState {
        let cur = div_bit_12(div_counter);
        APUState {
            frame_seq_step: if self.last_div_bit && !cur {
                ((self.frame_seq_step + 1) % 8) as u8
            } else {
                self.frame_seq_step
            },
            last_div_bit: cur,
        }
    }
}

/// DMG Audio Processing Unit — frame sequencer stub.
///
/// The APU frame sequencer is clocked at 512 Hz by detecting the falling edge
/// of bit 12 of the internal 16-bit DIV counter (equivalent to bit 4 of the
/// DIV register, the upper byte). It steps through 8 positions (0–7):
///
/// | Step | Length (256 Hz) | Envelope (64 Hz) | Sweep (128 Hz) |
/// |------|-----------------|------------------|----------------|
/// |  0   | clock           |                  |                |
/// |  1   |                 |                  |                |
/// |  2   | clock           |                  | clock          |
/// |  3   |                 |                  |                |
/// |  4   | clock           |                  |                |
/// |  5   |                 |                  |                |
/// |  6   | clock           |                  | clock          |
/// |  7   |                 | clock            |                |
pub struct APU {
    frame_seq_step: u8,
    last_div_bit: bool,
}

impl View for APU {
    type V = APUState;

    closed spec fn view(&self) -> APUState {
        APUState { frame_seq_step: self.frame_seq_step, last_div_bit: self.last_div_bit }
    }
}

impl APU {
    #[verifier::type_invariant]
    closed spec fn inv(&self) -> bool {
        self@.wf()
    }

    pub fn new() -> (a: Self)
        ensures
            a@ == (APUState { frame_seq_step: 0, last_div_bit: false }),
    {
        APU { frame_seq_step: 0, last_div_bit: false }
    }

    /// Advance the APU by one instruction step.
    ///
    /// `div_counter` is the full 16-bit internal timer counter. The frame
    /// sequencer is clocked on the falling edge of bit 12.
    pub fn step(&mut self, div_counter: u16)
        ensures
            final(self)@ == old(self)@.step(div_counter),
            final(self)@.wf(),
    {
        proof {
            use_type_invariant(&*self);
        }
        let current_div_bit = (div_counter >> 12) & 1 != 0;
        if self.last_div_bit && !current_div_bit {
            self.tick_frame_sequencer();
        }
        self.last_div_bit = current_div_bit;
    }

    fn tick_frame_sequencer(&mut self)
        ensures
            final(self).frame_seq_step == (old(self).frame_seq_step + 1) % 8,
            final(self).last_div_bit == old(self).last_div_bit,
    {
        proof {
            use_type_invariant(&*self);
        }
        let step = self.frame_seq_step;
        if step == 0 || step == 4 {
            self.clock_length();
        } else if step == 2 || step == 6 {
            self.clock_length();
            self.clock_sweep();
        } else if step == 7 {
            self.clock_envelope();
        }
        proof {
            crate::bits::lemma_position_wrap(step, 0);
        }
        self.frame_seq_step = (self.frame_seq_step + 1) & 7;
    }

    /// Clock length counters (256 Hz). No channel is attached to the
    /// sequencer yet, so this changes nothing.
    fn clock_length(&mut self)
        ensures
            final(self)@ == old(self)@,
    {
    }

    /// Clock volume envelopes (64 Hz). No channel is attached yet.
    fn clock_envelope(&mut self)
        ensures
            final(self)@ == old(self)@,
    {
    }

    /// Clock the CH1 frequency sweep (128 Hz). No channel is attached yet.
    fn clock_sweep(&mut self)
        ensures
            final(self)@ == old(self)@,
    {
    }

    /// Read an APU register. Returns `0xFF` (open bus) for all addresses.
    pub fn read(&self, addr: u16) -> (r: u8)
        ensures
            r == 0xFF,
    {
        0xFF
    }

    /// Write an APU register. Ignored until channels are attached.
    pub fn write(&mut self, addr: u16, value: u8)
        ensures
            final(self)@ == old(self)@,
    {
    }
}

impl Default for APU {
    fn default() -> (a: Self)
        ensures
            a@ == (APUState { frame_seq_step: 0, last_div_bit: false }),
    {
        Self::new()
    }
}

/// The frame sequencer stays within its 8 steps.
pub proof fn lemma_step_wf(s: APUState, div_counter: u16)
    requires
        s.wf(),
    ensures
        s.step(div_counter).wf(),
{
}

/// A falling edge of DIV-counter bit 12 (seen as `0x1000` then `0x0000`)
/// advances the frame sequencer by exactly one step, wrapping after step 7;
/// with bit 12 held high it does not move.
pub proof fn lemma_falling_edge_advances(s: APUState)
    requires
        s.wf(),
    ensures
        s.step(0x1000).step(0).frame_seq_step == (s.frame_seq_step + 1) % 8,
        s.step(0x1000).step(0x1000).frame_seq_step == s.step(0x1000).frame_seq_step,
{
    crate::bits::lemma_shift_constants();
}

/// Number of times a down-counting frequency timer with `t` cycles left and
/// period `p` expires within `c` cycles.
pub open spec fn timer_edges(t: int, p: int, c: int) -> int {
    if c >= t {
        1 + (c - t) / p
    } else {
        0
    }
}

/// Cycles left on that timer after `c` cycles.
pub open spec fn timer_left(t: int, p: int, c: int) -> int {
    if c >= t {
        p - (c - t) % p
    } else {
        t - c
    }
}

/// Running a frequency timer for `a` cycles and then `b` cycles counts the
/// same expirations and leaves the same remainder as running it for `a + b`.
pub proof fn lemma_timer_additive(t: int, p: int, a: int, b: int)
    requires
        t >= 1,
        p >= 1,
        a >= 0,
        b >= 0,
    ensures
        1 <= timer_left(t, p, a),
        timer_edges(t, p, a) + timer_edges(timer_left(t, p, a), p, b) == timer_edges(t, p, a + b),
        timer_left(timer_left(t, p, a), p, b) == timer_left(t, p, a + b),
{
    if a >= t {
        let r = a - t;
        let q = r / p;
        let m = r % p;
        vstd::arithmetic::div_mod::lemma_fundamental_div_mod(r, p);
        assert(r == q * p + m) by (nonlinear_arith)
            requires
                r == p * q + m;
        assert(0 <= m < p) by {
            vstd::arithmetic::div_mod::lemma_mod_bound(r, p);
        }
        let t1 = p - m;
        if b < t1 {
            vstd::arithmetic::div_mod::lemma_fundamental_div_mod_converse(r + b, p, q, m + b);
        } else {
            let r2 = b - t1;
            let q2 = r2 / p;
            let m2 = r2 % p;
            vstd::arithmetic::div_mod::lemma_fundamental_div_mod(r2, p);
            assert(0 <= m2 < p) by {
                vstd::arithmetic::div_mod::lemma_mod_bound(r2, p);
            }
            assert(r + b == (q + 1 + q2) * p + m2) by (nonlinear_arith)
                requires
                    r == q * p + m,
                    r2 == p * q2 + m2,
                    r2 == b - (p - m);
            vstd::arithmetic::div_mod::lemma_fundamental_div_mod_converse(r + b, p, q + 1 + q2, m2);
        }
    }
}

} // verus!
