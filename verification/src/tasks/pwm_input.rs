//! Duty-cycle measurement of the Carvera PWM input.
//!
//! A PIO state machine measures the HIGH time and the LOW time of every PWM
//! cycle and pushes both counts into its FIFO. The averager here turns those
//! pairs into a duty cycle in the 0-10000 scale (0.00% to 100.00%), averaged
//! over `AVERAGING_CYCLES` cycles, and decides what a missing or late FIFO
//! value means. The task around it reads the FIFO with timeouts and publishes
//! what the averager returns.
use vstd::math::min;
use vstd::prelude::*;

verus! {

/// Clock divider of the PIO state machine: 150MHz / 1 (~6.7ns resolution).
pub const CLOCK_DIVIDER: u16 = 1;

/// Number of PWM cycles averaged before a duty is published
/// (640 cycles at 20kHz = 32ms).
pub const AVERAGING_CYCLES: u32 = 640;

/// Without a PWM edge for this long the measured duty is reset to 0.
pub const SIGNAL_TIMEOUT_MS: u64 = 100;

/// Wait for the second FIFO value of a cycle.
pub const PERIOD_TIMEOUT_MS: u64 = 10;

/// Expected PIO counts per PWM period: 150MHz / 20kHz / 2 cycles per loop.
pub const EXPECTED_PERIOD_COUNTS: u64 = 3750;

/// Shortest accepted period (0.5x the expected count).
pub const MIN_PERIOD_COUNTS: u64 = 1875;

/// Longest accepted period (2x the expected count).
pub const MAX_PERIOD_COUNTS: u64 = 7500;

/// Consecutive missing period counts before the state machine is restarted.
pub const MAX_CONSECUTIVE_TIMEOUTS: u32 = 10;

/// The abstract state of a [`DutyAverager`].
pub struct AveragerModel {
    /// Sum of the duties of the cycles in the current window.
    pub sum: int,
    /// Cycles in the current window.
    pub cycles: nat,
    /// Consecutive cycles whose period count did not arrive.
    pub timeouts: nat,
}

/// A period (in PIO counts) that the measurement accepts.
pub open spec fn period_valid_spec(high: u32, low: u32) -> bool {
    MIN_PERIOD_COUNTS <= high + low <= MAX_PERIOD_COUNTS
}

/// Duty of one cycle in 0-10000: the HIGH share of the period.
pub open spec fn cycle_duty_spec(high: u32, low: u32) -> int {
    high * 10000 / ((high + low) as int)
}

impl AveragerModel {
    /// The empty window, no timeouts counted.
    pub open spec fn initial() -> AveragerModel {
        AveragerModel { sum: 0, cycles: 0, timeouts: 0 }
    }

    /// A complete cycle measured as `high` and `low` counts: the next state
    /// and the duty to publish, if the window is full.
    pub open spec fn on_cycle(self, high: u32, low: u32) -> (AveragerModel, Option<u32>) {
        let m = AveragerModel { timeouts: 0, ..self };
        if !period_valid_spec(high, low) {
            (m, None)
        } else {
            let sum = m.sum + cycle_duty_spec(high, low);
            let cycles = m.cycles + 1;
            if cycles >= AVERAGING_CYCLES {
                let avg = sum / (cycles as int);
                (AveragerModel::initial(), Some((if avg < 10000 { avg } else { 10000 }) as u32))
            } else {
                (AveragerModel { sum, cycles: cycles as nat, ..m }, None)
            }
        }
    }

    /// A HIGH count without its period count: the next state, and whether
    /// the state machine must be restarted.
    pub open spec fn on_missing_period(self) -> (AveragerModel, bool) {
        let t = self.timeouts + 1;
        if t >= MAX_CONSECUTIVE_TIMEOUTS {
            (AveragerModel::initial(), true)
        } else {
            (AveragerModel { timeouts: t as nat, ..self }, false)
        }
    }

    /// The window holds fewer cycles than a full one, each of at most 10000.
    pub open spec fn wf(self) -> bool {
        &&& self.cycles < AVERAGING_CYCLES
        &&& 0 <= self.sum <= self.cycles * 10000
        &&& self.timeouts < MAX_CONSECUTIVE_TIMEOUTS
    }
}

/// Averages the per-cycle duty of the PWM input over `AVERAGING_CYCLES`
/// cycles and counts consecutive missing period values.
pub struct DutyAverager {
    duty_accumulator: u64,
    cycle_count: u32,
    consecutive_timeouts: u32,
}

impl View for DutyAverager {
    type V = AveragerModel;

    closed spec fn view(&self) -> AveragerModel {
        AveragerModel {
            sum: self.duty_accumulator as int,
            cycles: self.cycle_count as nat,
            timeouts: self.consecutive_timeouts as nat,
        }
    }
}

impl DutyAverager {
    #[verifier::type_invariant]
    closed spec fn inv(self) -> bool {
        self@.wf()
    }

    /// An averager with an empty window.
    pub fn new() -> (a: Self)
        ensures
            a@ == AveragerModel::initial(),
            a@.wf(),
    {
        DutyAverager { duty_accumulator: 0, cycle_count: 0, consecutive_timeouts: 0 }
    }

    /// Duty of one cycle in 0-10000 for an accepted period.
    pub fn cycle_duty(high: u32, low: u32) -> (d: u32)
        requires
            period_valid_spec(high, low),
        ensures
            d == cycle_duty_spec(high, low),
            d <= 10000,
    {
        let period: u64 = high as u64 + low as u64;
        let h: u64 = high as u64;
        assert(h * 10000 / (period as int) <= 10000) by (nonlinear_arith)
            requires
                h <= period,
                period > 0,
        {
            assert(h * 10000 <= period * 10000);
        }
        ((h * 10000) / period) as u32
    }

    /// No edge arrived within `SIGNAL_TIMEOUT_MS`: the window and the
    /// timeout count start over, and the measured duty becomes 0.
    pub fn on_signal_timeout(&mut self) -> (published: u32)
        ensures
            final(self)@ == AveragerModel::initial(),
            final(self)@.wf(),
            published == 0,
    {
        *self = DutyAverager::new();
        0
    }

    /// The HIGH count arrived but its period count did not. Returns whether
    /// the state machine must be restarted.
    pub fn on_missing_period(&mut self) -> (restart: bool)
        ensures
            (final(self)@, restart) == old(self)@.on_missing_period(),
            old(self)@.wf(),
            final(self)@.wf(),
            restart <==> old(self)@.timeouts + 1 == MAX_CONSECUTIVE_TIMEOUTS,
    {
        proof {
            use_type_invariant(&*self);
        }
        let t = self.consecutive_timeouts + 1;
        if t >= MAX_CONSECUTIVE_TIMEOUTS {
            *self = DutyAverager::new();
            true
        } else {
            self.consecutive_timeouts = t;
            false
        }
    }

    /// A complete cycle: `high` and `low` PIO counts. Returns the averaged
    /// duty (at most 10000) when the window is full.
    pub fn on_cycle(&mut self, high: u32, low: u32) -> (published: Option<u32>)
        ensures
            (final(self)@, published) == old(self)@.on_cycle(high, low),
            old(self)@.wf(),
            final(self)@.wf(),
            published is Some <==> (period_valid_spec(high, low) && old(self)@.cycles + 1
                == AVERAGING_CYCLES),
            published matches Some(d) ==> d <= 10000 && d == min(
                (old(self)@.sum + cycle_duty_spec(high, low)) / (AVERAGING_CYCLES as int),
                10000,
            ),
    {
        proof {
            use_type_invariant(&*self);
        }
        let period: u64 = high as u64 + low as u64;
        if period < MIN_PERIOD_COUNTS || period > MAX_PERIOD_COUNTS {
            self.consecutive_timeouts = 0;
            return None;
        }
        let duty = Self::cycle_duty(high, low);
        let sum: u64 = self.duty_accumulator + duty as u64;
        let cycles: u32 = self.cycle_count + 1;
        if cycles >= AVERAGING_CYCLES {
            let avg: u64 = sum / cycles as u64;
            *self = DutyAverager::new();
            if avg < 10000 {
                Some(avg as u32)
            } else {
                Some(10000)
            }
        } else {
            assert(sum <= cycles * 10000) by (nonlinear_arith)
                requires
                    sum == self.duty_accumulator + duty,
                    self.duty_accumulator <= self.cycle_count * 10000,
                    duty <= 10000,
                    cycles == self.cycle_count + 1,
            {}
            *self = DutyAverager { duty_accumulator: sum, cycle_count: cycles, consecutive_timeouts: 0 };
            None
        }
    }
}

} // verus!
