//! Time keeping from the processor cycle counter, and the PWM timing
//! window used to synchronise control updates.

use vstd::prelude::*;

verus! {

/// System clock frequency of the Teensy 4.1 (600 MHz)
pub const CLOCK_FREQ_HZ: u32 = 600_000_000;

/// Maximum acceptable delay for PWM synchronization (microseconds)
pub const MAX_ACCEPTABLE_DELAY_US: u32 = 1000;

/// `a - b` modulo 2^32, the distance travelled by a wrapping counter.
pub open spec fn cycles_between(start: u32, now: u32) -> u32 {
    if now >= start { (now - start) as u32 } else { (now + 0x1_0000_0000 - start) as u32 }
}

/// Teensy 4.1 time provider using the cycle counter. The counter itself is
/// read by the caller and handed in.
pub struct Teensy41Time {
    /// System clock frequency
    clock_freq: u32,
    /// Startup cycle count for relative time calculation
    startup_cycles: u32,
}

impl Teensy41Time {
    /// The clock frequency in Hz.
    pub closed spec fn spec_clock_freq(&self) -> u32 {
        self.clock_freq
    }

    /// The cycle count at start-up.
    pub closed spec fn spec_startup_cycles(&self) -> u32 {
        self.startup_cycles
    }

    /// Create new time provider; `startup_cycles` is the cycle counter read
    /// right after the counter was enabled.
    pub fn new(startup_cycles: u32) -> (t: Self)
        ensures
            t.spec_clock_freq() == CLOCK_FREQ_HZ,
            t.spec_startup_cycles() == startup_cycles,
    {
        Self { clock_freq: CLOCK_FREQ_HZ, startup_cycles }
    }

    /// Convert cycles to milliseconds (rounded down)
    pub fn cycles_to_ms(&self, cycles: u32) -> (ms: u64)
        requires
            self.spec_clock_freq() > 0,
        ensures
            ms == (cycles as int * 1000) / self.spec_clock_freq() as int,
    {
        ((cycles as u64) * 1000) / (self.clock_freq as u64)
    }

    /// Convert cycles to microseconds (rounded down)
    pub fn cycles_to_us(&self, cycles: u32) -> (us: u64)
        requires
            self.spec_clock_freq() > 0,
        ensures
            us == (cycles as int * 1_000_000) / self.spec_clock_freq() as int,
    {
        ((cycles as u64) * 1_000_000) / (self.clock_freq as u64)
    }

    /// Milliseconds since start-up when the cycle counter reads `current_cycles`
    pub fn now_ms(&self, current_cycles: u32) -> (ms: u64)
        requires
            self.spec_clock_freq() > 0,
        ensures
            ms == (cycles_between(self.spec_startup_cycles(), current_cycles) as int * 1000)
                / self.spec_clock_freq() as int,
    {
        let elapsed_cycles = current_cycles.wrapping_sub(self.startup_cycles);
        self.cycles_to_ms(elapsed_cycles)
    }

    /// Microseconds since start-up when the cycle counter reads `current_cycles`
    pub fn timestamp_us(&self, current_cycles: u32) -> (us: u64)
        requires
            self.spec_clock_freq() > 0,
        ensures
            us == (cycles_between(self.spec_startup_cycles(), current_cycles) as int * 1_000_000)
                / self.spec_clock_freq() as int,
    {
        let elapsed_cycles = current_cycles.wrapping_sub(self.startup_cycles);
        self.cycles_to_us(elapsed_cycles)
    }

    /// The number of cycles a delay of `ms` milliseconds waits for, taken
    /// modulo 2^32 as the cycle counter is.
    pub fn delay_cycles(&self, ms: u32) -> (c: u32)
        ensures
            c == ((ms as int * self.spec_clock_freq() as int) / 1000) as u32,
    {
        assert((ms as int) * (self.clock_freq as int) <= u64::MAX) by (nonlinear_arith)
            requires ms <= u32::MAX, self.clock_freq <= u32::MAX;
        let delay_cycles = (ms as u64 * self.clock_freq as u64) / 1000;
        delay_cycles as u32
    }

    /// Whether a delay of `ms` that started at `start_cycles` is over when
    /// the counter reads `current_cycles`.
    pub fn delay_done(&self, start_cycles: u32, current_cycles: u32, ms: u32) -> (done: bool)
        ensures
            done == (cycles_between(start_cycles, current_cycles)
                >= ((ms as int * self.spec_clock_freq() as int) / 1000) as u32),
    {
        current_cycles.wrapping_sub(start_cycles) >= self.delay_cycles(ms)
    }
}

/// Handle for scheduled callbacks
#[derive(Debug, Clone, Copy, PartialEq, Eq, Structural)]
pub struct CallbackHandle(pub u32);

/// PWM timing information for synchronized control updates. The cycle
/// position (0.0 = cycle start, 1.0 = cycle end) is kept as the bit pattern
/// of its `f32` value.
#[derive(Debug, Clone, Copy)]
pub struct PwmTimingInfo {
    /// Bit pattern of the current PWM cycle position
    pub cycle_position_bits: u32,
    /// Time until next PWM cycle start in microseconds
    pub time_to_next_cycle_us: u32,
    /// Time until optimal update window in microseconds
    pub time_to_optimal_window_us: u32,
    /// Whether we're currently in an optimal update window
    pub in_optimal_window: bool,
}

impl PwmTimingInfo {
    /// Check if current time is optimal for control updates
    pub fn is_optimal_update_time(&self, current_time_us: u64) -> (r: bool)
        ensures
            r == self.in_optimal_window,
    {
        self.in_optimal_window
    }

    /// Get time until next optimal update window
    pub fn time_to_next_update_window_us(&self, current_time_us: u64) -> (r: u32)
        ensures
            r == (if self.in_optimal_window { 0 } else { self.time_to_optimal_window_us }),
    {
        if self.in_optimal_window {
            0
        } else {
            self.time_to_optimal_window_us
        }
    }
}

/// Control update strategy for PWM synchronization
#[derive(Debug, Clone, Copy, PartialEq, Eq, Structural)]
pub enum ControlUpdateStrategy {
    /// Standard asynchronous timing - no PWM coordination
    Asynchronous,
    /// Update at PWM cycle start
    CycleStart,
    /// Update at cycle midpoint (optimal for most applications)
    CycleMidpoint,
    /// Multiple updates per cycle with specified count
    SubCycle { updates_per_cycle: u8 },
}

/// Elapsed time never runs backwards between two readings of a counter that
/// has not wrapped: a later reading gives at least as many milliseconds.
pub proof fn lemma_now_ms_monotonic(t: Teensy41Time, a: u32, b: u32)
    requires
        t.spec_clock_freq() > 0,
        cycles_between(t.spec_startup_cycles(), a) <= cycles_between(t.spec_startup_cycles(), b),
    ensures
        (cycles_between(t.spec_startup_cycles(), a) as int * 1000) / t.spec_clock_freq() as int
            <= (cycles_between(t.spec_startup_cycles(), b) as int * 1000) / t.spec_clock_freq() as int,
{
    let f = t.spec_clock_freq() as int;
    let x = cycles_between(t.spec_startup_cycles(), a) as int * 1000;
    let y = cycles_between(t.spec_startup_cycles(), b) as int * 1000;
    assert(x <= y);
    vstd::arithmetic::div_mod::lemma_div_is_ordered(x, y, f);
}

/// At the 600 MHz clock one millisecond is 600 000 cycles: readings
/// 600 000 cycles apart give exactly one more millisecond.
pub proof fn lemma_one_ms_is_600k_cycles(c: u32)
    requires
        c as int + 600_000 <= u32::MAX,
    ensures
        ((c as int + 600_000) * 1000) / CLOCK_FREQ_HZ as int == (c as int * 1000) / CLOCK_FREQ_HZ as int + 1,
{
    assert(((c as int + 600_000) * 1000) == c as int * 1000 + CLOCK_FREQ_HZ as int);
    vstd::arithmetic::div_mod::lemma_div_plus_one(c as int * 1000, CLOCK_FREQ_HZ as int);
}

} // verus!
