//! Speed measurement from the debounced encoder edges.
//!
//! A PIO state machine debounces the ESCON speed output in hardware and
//! raises an IRQ on every stable rising edge. The measurer here keeps the
//! timestamps of the last `ESCON_PULSES_PER_REV` edges, so that each edge
//! closes the period of one full revolution (which cancels the asymmetry
//! between the pulses of a revolution), filters implausible periods and
//! turns the median of the last periods into RPM.
use crate::filters::{CircularBuffer, RingModel};
use crate::speed::{lemma_median_below, period_us_to_frequency_mhz, periods_to_rpm, periods_to_rpm_spec};
use crate::state::config;
use vstd::prelude::*;

verus! {

/// Number of revolution periods kept for median filtering.
pub const REV_PERIOD_BUFFER_SIZE: usize = 4;

/// Without a pulse for this long the motor is taken as stopped.
pub const NO_PULSE_TIMEOUT_MS: u64 = 500;

/// Clock divider of the PIO debouncer: debounce time = 62 * 64 / 125MHz (~32us).
pub const CLOCK_DIVIDER: u16 = 64;

/// Shortest plausible revolution period, exclusive (above 13000 RPM).
pub const MIN_REV_PERIOD_US: u32 = 4000;

/// Longest plausible revolution period, exclusive (below 100 RPM).
pub const MAX_REV_PERIOD_US: u32 = 700_000;

/// Debounce time in microseconds of the PIO program for a clock divider:
/// 62 PIO cycles at 125MHz.
pub fn debounce_us(divider: u16) -> (us: u32)
    ensures
        us == 62 * divider / 125,
{
    (62u32 * divider as u32) / 125
}

/// The abstract state of a [`SpeedMeasurer`].
pub struct SpeedModel {
    /// Timestamps (us) of the last edges, a ring of `ESCON_PULSES_PER_REV`.
    pub stamps: Seq<u64>,
    /// Next slot of the ring, which holds the oldest timestamp.
    pub index: int,
    /// Edges seen since the last reset (saturating).
    pub pulses: nat,
    /// The last revolution periods (us).
    pub periods: RingModel,
}

/// A revolution period that the measurement accepts.
pub open spec fn rev_period_valid(rev_period_us: u32) -> bool {
    MIN_REV_PERIOD_US < rev_period_us < MAX_REV_PERIOD_US
}

impl SpeedModel {
    /// No edge seen by `now_us` lies in the future.
    pub open spec fn stamps_before(self, now_us: u64) -> bool {
        forall|i: int| 0 <= i < self.stamps.len() ==> self.stamps[i] <= now_us
    }

    /// An edge at `now_us`: the next state, and the RPM and frequency (mHz)
    /// to publish when a plausible revolution period was completed.
    pub open spec fn on_edge(self, now_us: u64) -> (SpeedModel, Option<(u32, u32)>) {
        let oldest = self.stamps[self.index];
        let pulses = if self.pulses < u32::MAX { self.pulses + 1 } else { self.pulses };
        let m = SpeedModel {
            stamps: self.stamps.update(self.index, now_us),
            index: (self.index + 1) % (config::ESCON_PULSES_PER_REV as int),
            pulses: pulses as nat,
            ..self
        };
        let rev = (now_us - oldest) as u32;
        if pulses > config::ESCON_PULSES_PER_REV && rev_period_valid(rev) {
            let periods = self.periods.pushed(rev);
            let pulse_period = rev / config::ESCON_PULSES_PER_REV;
            let freq = if pulse_period == 0 { 0 } else { 1_000_000_000int / (pulse_period as int) };
            (
                SpeedModel { periods, ..m },
                Some((periods_to_rpm_spec(periods.valid(), 1) as u32, freq as u32)),
            )
        } else {
            (m, None)
        }
    }

    /// The state after a reset: no edges, no periods.
    pub open spec fn is_reset(self) -> bool {
        &&& self.stamps == Seq::new(config::ESCON_PULSES_PER_REV as nat, |i: int| 0u64)
        &&& self.index == 0
        &&& self.pulses == 0
        &&& self.periods.count == 0
        &&& self.periods.index == 0
        &&& self.periods.slots == Seq::new(REV_PERIOD_BUFFER_SIZE as nat, |i: int| 0u32)
    }
}

/// Revolution-period speed measurement from debounced encoder edges.
pub struct SpeedMeasurer {
    edge_timestamps: [u64; 4],
    ts_idx: usize,
    pulse_count: u32,
    rev_periods: CircularBuffer<REV_PERIOD_BUFFER_SIZE>,
}

impl View for SpeedMeasurer {
    type V = SpeedModel;

    closed spec fn view(&self) -> SpeedModel {
        SpeedModel {
            stamps: self.edge_timestamps@,
            index: self.ts_idx as int,
            pulses: self.pulse_count as nat,
            periods: self.rev_periods@,
        }
    }
}

impl SpeedMeasurer {
    #[verifier::type_invariant]
    closed spec fn inv(self) -> bool {
        let p = self.rev_periods@;
        &&& self.ts_idx < 4
        &&& p.slots.len() == REV_PERIOD_BUFFER_SIZE
        &&& 0 <= p.index < REV_PERIOD_BUFFER_SIZE
        &&& 0 <= p.count <= REV_PERIOD_BUFFER_SIZE
        &&& (p.count < REV_PERIOD_BUFFER_SIZE ==> p.index == p.count)
        &&& forall|i: int| 0 <= i < p.slots.len() ==> p.slots[i] < MAX_REV_PERIOD_US
    }

    /// A measurer that has seen no edge.
    pub fn new() -> (m: Self)
        ensures
            m@.is_reset(),
    {
        let m = SpeedMeasurer {
            edge_timestamps: [0u64; 4],
            ts_idx: 0,
            pulse_count: 0,
            rev_periods: CircularBuffer::new(),
        };
        assert(m.edge_timestamps@ =~= Seq::new(4, |i: int| 0u64));
        m
    }

    /// A debounced rising edge at `now_us` (monotonic microseconds). Returns
    /// the RPM and the pulse frequency in mHz to publish, if the edge closed
    /// a plausible revolution period.
    pub fn on_edge(&mut self, now_us: u64) -> (published: Option<(u32, u32)>)
        requires
            old(self)@.stamps_before(now_us),
        ensures
            (final(self)@, published) == old(self)@.on_edge(now_us),
            final(self)@.stamps_before(now_us),
    {
        proof {
            use_type_invariant(&*self);
        }
        let ppr: usize = config::ESCON_PULSES_PER_REV as usize;
        let oldest_us = self.edge_timestamps[self.ts_idx];
        assert(self.edge_timestamps@.len() == 4);
        assert(self@.stamps[self.ts_idx as int] == oldest_us);
        assert(oldest_us <= now_us);
        let mut stamps = self.edge_timestamps;
        stamps[self.ts_idx] = now_us;
        self.edge_timestamps = stamps;
        self.ts_idx = (self.ts_idx + 1) % ppr;
        self.pulse_count = self.pulse_count.saturating_add(1);
        let rev_period_us = (now_us - oldest_us) as u32;
        if self.pulse_count > ppr as u32 && rev_period_us > MIN_REV_PERIOD_US && rev_period_us
            < MAX_REV_PERIOD_US {
            self.rev_periods.push(rev_period_us);
            let ghost p = self.rev_periods@;
            proof {
                assert forall|i: int| 0 <= i < p.valid().len() implies p.valid()[i]
                    < MAX_REV_PERIOD_US by {
                    assert(p.slots[i] < MAX_REV_PERIOD_US);
                }
                lemma_median_below(p.valid(), MAX_REV_PERIOD_US as int);
            }
            let rpm = periods_to_rpm(self.rev_periods.as_slice(), 1);
            let freq_mhz = period_us_to_frequency_mhz(rev_period_us / ppr as u32);
            Some((rpm, freq_mhz))
        } else {
            None
        }
    }

    /// No pulse within `NO_PULSE_TIMEOUT_MS`: the motor has stopped, the
    /// measurer starts over and the published RPM and frequency become 0.
    /// Returns whether any revolution period had been measured.
    pub fn on_timeout(&mut self) -> (was_running: bool)
        ensures
            final(self)@.is_reset(),
            was_running == (old(self)@.periods.count != 0),
    {
        let was_running = !self.rev_periods.is_empty();
        *self = SpeedMeasurer::new();
        was_running
    }
}

} // verus!
