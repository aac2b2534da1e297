use vstd::prelude::*;

verus! {

/// Abstract state of the timer hardware.
pub struct TimerState {
    pub counter: u16,
    pub tima: u8,
    pub tma: u8,
    pub tac: u8,
    pub overflow_delay: u8,
}

/// Index of the internal-counter bit that clocks TIMA, selected by TAC bits
/// 1–0.
pub open spec fn clock_bit_spec(tac: u8) -> u16 {
    let sel = tac & 0x03;
    if sel == 0 {
        9
    } else if sel == 1 {
        3
    } else if sel == 2 {
        5
    } else {
        7
    }
}

/// Bit `b` of `v`.
pub open spec fn bit_of(v: u16, b: u16) -> u16 {
    (v >> b) & 1
}

impl TimerState {
    pub open spec fn wf(self) -> bool {
        &&& self.tac <= 0x07
        &&& self.overflow_delay <= 4
    }

    pub open spec fn enabled(self) -> bool {
        self.tac & 0x04 != 0
    }

    /// One T-cycle: first the pending reload (if any) counts down, then the
    /// counter increments and TIMA is clocked on a falling edge of the
    /// selected counter bit while the timer is enabled. Returns the new state
    /// and whether the timer interrupt is requested.
    pub open spec fn tick(self) -> (TimerState, bool) {
        let reloading = self.overflow_delay == 1;
        let delay: u8 = if self.overflow_delay > 0 { (self.overflow_delay - 1) as u8 } else { 0 };
        let tima: u8 = if reloading { self.tma } else { self.tima };
        let counter: u16 = if self.counter == 0xFFFF { 0 } else { (self.counter + 1) as u16 };
        let b = clock_bit_spec(self.tac);
        let falling = self.enabled() && bit_of(self.counter, b) == 1 && bit_of(counter, b) == 0;
        let (tima2, delay2) = if falling {
            if tima == 0xFF {
                (0u8, 4u8)
            } else {
                ((tima + 1) as u8, delay)
            }
        } else {
            (tima, delay)
        };
        (TimerState { counter, tima: tima2, overflow_delay: delay2, ..self }, reloading)
    }

    /// `n` T-cycles; the interrupt flag is set if any of them requested it.
    #[verifier::opaque]
    pub open spec fn run(self, n: nat) -> (TimerState, bool)
        decreases n,
    {
        if n == 0 {
            (self, false)
        } else {
            let (s, irq) = self.run((n - 1) as nat);
            let (s2, irq2) = s.tick();
            (s2, irq || irq2)
        }
    }

    pub open spec fn read(self, addr: u16) -> u8 {
        if addr == 0xFF04 {
            (self.counter >> 8) as u8
        } else if addr == 0xFF05 {
            self.tima
        } else if addr == 0xFF06 {
            self.tma
        } else {
            self.tac
        }
    }

    pub open spec fn write(self, addr: u16, value: u8) -> TimerState {
        if addr == 0xFF04 {
            TimerState { counter: 0, ..self }
        } else if addr == 0xFF05 {
            TimerState { tima: value, ..self }
        } else if addr == 0xFF06 {
            TimerState { tma: value, ..self }
        } else {
            TimerState { tac: value & 0x07, ..self }
        }
    }
}

/// A well-formed timer stays well formed however long it runs.
pub proof fn lemma_timer_run_wf(s: TimerState, n: nat)
    requires
        s.wf(),
    ensures
        s.run(n).0.wf(),
    decreases n,
{
    reveal(TimerState::run);
    if n > 0 {
        lemma_timer_run_wf(s, (n - 1) as nat);
    }
}

/// Timer register addresses: DIV, TIMA, TMA, TAC.
pub open spec fn is_timer_addr(addr: u16) -> bool {
    0xFF04 <= addr <= 0xFF07
}

/// DMG timer hardware.
///
/// The timer is driven by a single internal 16-bit counter that increments
/// every T-cycle. DIV is the upper byte; any write to DIV resets the full
/// counter. TIMA is clocked by a specific bit of the counter determined by TAC.
pub struct Timer {
    /// Internal 16-bit counter. Increments every T-cycle.
    counter: u16,
    /// TIMA — Timer Counter (0xFF05)
    tima: u8,
    /// TMA — Timer Modulo (0xFF06)
    tma: u8,
    /// TAC — Timer Control (0xFF07)
    tac: u8,
    /// Overflow delay counter. When TIMA overflows, there is a 4 T-cycle
    /// window where TIMA = 0x00 before it reloads from TMA and fires IRQ.
    overflow_delay: u8,
}

impl View for Timer {
    type V = TimerState;

    closed spec fn view(&self) -> TimerState {
        TimerState {
            counter: self.counter,
            tima: self.tima,
            tma: self.tma,
            tac: self.tac,
            overflow_delay: self.overflow_delay,
        }
    }
}

impl Timer {
    pub fn new() -> (t: Self)
        ensures
            t@ == (TimerState { counter: 0, tima: 0, tma: 0, tac: 0, overflow_delay: 0 }),
            t@.wf(),
    {
        Timer { counter: 0, tima: 0, tma: 0, tac: 0, overflow_delay: 0 }
    }

    /// Return the counter bit index selected by TAC bits 1–0.
    fn clock_bit(&self) -> (b: u16)
        ensures
            b == clock_bit_spec(self.tac),
    {
        let sel = self.tac & 0x03;
        if sel == 0 {
            9
        } else if sel == 1 {
            3
        } else if sel == 2 {
            5
        } else {
            7
        }
    }

    fn tick(&mut self) -> (irq: bool)
        ensures
            (final(self)@, irq) == old(self)@.tick(),
    {
        let mut irq = false;
        // Pending reload: TIMA stays 0x00 for 4 T-cycles after an overflow,
        // then reloads from TMA and requests the interrupt.
        if self.overflow_delay > 0 {
            self.overflow_delay -= 1;
            if self.overflow_delay == 0 {
                self.tima = self.tma;
                irq = true;
            }
        }
        let prev_counter = self.counter;
        self.counter = self.counter.wrapping_add(1);

        // Clock TIMA on the falling edge of the selected bit when enabled.
        let bit = self.clock_bit();
        let timer_enabled = (self.tac & 0x04) != 0;
        let prev_bit = (prev_counter >> bit) & 1;
        let new_bit = (self.counter >> bit) & 1;
        if timer_enabled && prev_bit == 1 && new_bit == 0 {
            if self.tima == 0xFF {
                self.tima = 0x00;
                self.overflow_delay = 4;
            } else {
                self.tima = self.tima + 1;
            }
        }
        irq
    }

    /// Advance the timer by `t_cycles` T-cycles.
    ///
    /// Returns `true` if a timer interrupt should be requested (set IF bit 2).
    pub fn step(&mut self, t_cycles: u32) -> (irq: bool)
        ensures
            (final(self)@, irq) == old(self)@.run(t_cycles as nat),
    {
        reveal(TimerState::run);
        let mut irq = false;
        let mut i: u32 = 0;
        while i < t_cycles
            invariant
                0 <= i <= t_cycles,
                (self@, irq) == old(self)@.run(i as nat),
            decreases t_cycles - i,
        {
            proof {
                reveal(TimerState::run);
            }
            let fired = self.tick();
            irq = irq || fired;
            i += 1;
        }
        irq
    }

    /// Read a timer register (`0xFF04`–`0xFF07`).
    pub fn read(&self, addr: u16) -> (r: u8)
        requires
            is_timer_addr(addr),
        ensures
            r == self@.read(addr),
    {
        if addr == 0xFF04 {
            (self.counter >> 8) as u8
        } else if addr == 0xFF05 {
            self.tima
        } else if addr == 0xFF06 {
            self.tma
        } else {
            self.tac
        }
    }

    /// Return the raw 16-bit internal counter.
    ///
    /// Used by the APU frame sequencer to detect falling edges on bit 12.
    pub fn div_counter(&self) -> (c: u16)
        ensures
            c == self@.counter,
    {
        self.counter
    }

    /// Write a timer register (`0xFF04`–`0xFF07`).
    pub fn write(&mut self, addr: u16, value: u8)
        requires
            is_timer_addr(addr),
        ensures
            final(self)@ == old(self)@.write(addr, value),
            old(self)@.wf() ==> final(self)@.wf(),
    {
        proof {
            crate::bits::lemma_u8_fields(value);
        }
        if addr == 0xFF04 {
            // Any write resets the full counter.
            self.counter = 0;
        } else if addr == 0xFF05 {
            self.tima = value;
        } else if addr == 0xFF06 {
            self.tma = value;
        } else {
            self.tac = value & 0x07;
        }
    }
}

impl Default for Timer {
    fn default() -> (t: Self)
        ensures
            t@ == (TimerState { counter: 0, tima: 0, tma: 0, tac: 0, overflow_delay: 0 }),
    {
        Self::new()
    }
}

/// The internal counter (whose upper byte is DIV) advances by exactly one
/// per T-cycle, modulo 2^16.
pub proof fn lemma_counter_advances(s: TimerState, n: nat)
    ensures
        s.run(n).0.counter == (s.counter + n) % 0x10000,
    decreases n,
{
    reveal(TimerState::run);
    if n > 0 {
        lemma_counter_advances(s, (n - 1) as nat);
    }
}

/// With the timer disabled (TAC bit 2 clear) and no reload pending, TIMA
/// keeps its value and no timer interrupt is requested, however long the
/// timer runs.
pub proof fn lemma_disabled_timer_holds(s: TimerState, n: nat)
    requires
        !s.enabled(),
        s.overflow_delay == 0,
    ensures
        s.run(n).0.tima == s.tima,
        s.run(n).0.overflow_delay == 0,
        s.run(n).0.tac == s.tac,
        !s.run(n).1,
    decreases n,
{
    reveal(TimerState::run);
    if n > 0 {
        lemma_disabled_timer_holds(s, (n - 1) as nat);
    }
}

/// After TIMA overflows, the reload from TMA and the timer interrupt come
/// exactly 4 T-cycles later: not within the first 3 cycles, and at the 4th.
pub proof fn lemma_overflow_reload_delay(s: TimerState)
    requires
        s.overflow_delay == 4,
        s.tima < 0xFC,
    ensures
        !s.run(1).1,
        !s.run(2).1,
        !s.run(3).1,
        s.run(4).1,
{
    reveal_with_fuel(TimerState::run, 5);
    let s1 = s.run(1).0;
    let s2 = s.run(2).0;
    let s3 = s.run(3).0;
    assert(s1.overflow_delay == 3 && s1.tima <= s.tima + 1);
    assert(s2.overflow_delay == 2 && s2.tima <= s.tima + 2);
    assert(s3.overflow_delay == 1);
}

/// TIMA and TMA read back what was written; TAC reads back its low three
/// bits; DIV reads 0 after any write.
pub proof fn lemma_register_read_back(s: TimerState, value: u8)
    ensures
        s.write(0xFF05, value).read(0xFF05) == value,
        s.write(0xFF06, value).read(0xFF06) == value,
        s.write(0xFF07, value).read(0xFF07) == value & 0x07,
        s.write(0xFF04, value).read(0xFF04) == 0,
{
    crate::bits::lemma_shift_constants();
}

/// Input-clock period of TIMA, in T-cycles, for TAC clock select `tac & 3`:
/// 1024, 16, 64 and 256 (4096, 262144, 65536 and 16384 Hz).
pub open spec fn tima_period(tac: u8) -> int {
    let sel = tac & 0x03;
    if sel == 0 {
        1024
    } else if sel == 1 {
        16
    } else if sel == 2 {
        64
    } else {
        256
    }
}

/// Counter bit 9 / 3 / 5 / 7 falls exactly when the counter reaches a
/// multiple of 1024 / 16 / 64 / 256.
proof fn lemma_falling_edges(c: u16, n: u16)
    by (bit_vector)
    requires
        (c == 0xFFFF && n == 0) || (c < 0xFFFF && n == c + 1),
    ensures
        (((c >> 9u16) & 1 == 1 && (n >> 9u16) & 1 == 0) <==> n % 1024 == 0),
        (((c >> 3u16) & 1 == 1 && (n >> 3u16) & 1 == 0) <==> n % 16 == 0),
        (((c >> 5u16) & 1 == 1 && (n >> 5u16) & 1 == 0) <==> n % 64 == 0),
        (((c >> 7u16) & 1 == 1 && (n >> 7u16) & 1 == 0) <==> n % 256 == 0),
{
}

/// TIMA counts at the rate TAC selects: with the timer enabled and no reload
/// pending, a T-cycle increments TIMA (below `0xFF`) exactly when the
/// internal counter reaches a multiple of the input-clock period, and
/// requests no interrupt.
pub proof fn lemma_tima_rate(s: TimerState)
    requires
        s.wf(),
        s.enabled(),
        s.overflow_delay == 0,
        s.tima < 0xFF,
    ensures
        ({
            let (t, irq) = s.tick();
            &&& t.counter == (s.counter + 1) % 0x10000
            &&& t.tima == (if (t.counter as int) % tima_period(s.tac) == 0 {
                s.tima + 1
            } else {
                s.tima as int
            })
            &&& t.overflow_delay == 0
            &&& !irq
        }),
{
    let n: u16 = if s.counter == 0xFFFF { 0 } else { (s.counter + 1) as u16 };
    lemma_falling_edges(s.counter, n);
}

/// From a counter of 0, with the timer enabled and no reload pending, TIMA
/// (below `0xFF`) holds for fewer than one input-clock period and has
/// counted exactly once after one period.
pub proof fn lemma_tima_one_period(s: TimerState, n: nat)
    requires
        s.wf(),
        s.enabled(),
        s.overflow_delay == 0,
        s.counter == 0,
        s.tima < 0xFF,
        n <= tima_period(s.tac),
    ensures
        s.run(n).0.counter == n,
        s.run(n).0.overflow_delay == 0,
        s.run(n).0.tac == s.tac,
        s.run(n).0.tima == (if n == tima_period(s.tac) { s.tima + 1 } else { s.tima as int }),
    decreases n,
{
    reveal(TimerState::run);
    if n > 0 {
        lemma_tima_one_period(s, (n - 1) as nat);
        let prev = s.run((n - 1) as nat).0;
        lemma_tima_rate(prev);
    }
}

/// DIV (`0xFF04`) shows the upper byte of the internal counter.
pub proof fn lemma_div_is_upper_byte(s: TimerState)
    ensures
        s.read(0xFF04) == s.counter / 256,
{
    let c = s.counter;
    assert((c >> 8) as u8 == c / 256) by (bit_vector);
}

} // verus!
