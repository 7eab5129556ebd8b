//! Threshold detection with debounce timing.
//!
//! Generic detection of a value that must exceed a threshold for a minimum
//! time before triggering (overcurrent, thermal limits, ...).
use vstd::prelude::*;

verus! {

/// Result of threshold detection check.
#[derive(Debug, Clone, Copy, PartialEq, Eq)]
pub enum ThresholdStatus {
    /// Value is below threshold
    Below,
    /// Value above threshold, within debounce period
    Rising,
    /// Value above threshold, debounce complete - triggered
    Triggered,
}

/// Detects when a value exceeds a threshold with debounce timing.
pub struct ThresholdDetector {
    start_time: Option<u64>,
}

impl View for ThresholdDetector {
    /// When the value first exceeded the threshold, `None` while below.
    type V = Option<u64>;

    closed spec fn view(&self) -> Option<u64> {
        self.start_time
    }
}

/// One check: the new start time and the status.
pub open spec fn threshold_step(
    start: Option<u64>,
    value: u32,
    threshold: u32,
    now: u64,
    debounce_ms: u64,
) -> (Option<u64>, ThresholdStatus) {
    if value > threshold {
        match start {
            None => (Some(now), ThresholdStatus::Rising),
            Some(s) => if now >= s + debounce_ms {
                (start, ThresholdStatus::Triggered)
            } else {
                (start, ThresholdStatus::Rising)
            },
        }
    } else {
        (None, ThresholdStatus::Below)
    }
}

impl Default for ThresholdDetector {
    fn default() -> (d: Self)
        ensures
            d@ is None,
    {
        Self::new()
    }
}

impl ThresholdDetector {
    /// Create a new threshold detector.
    pub fn new() -> (d: Self)
        ensures
            d@ is None,
    {
        ThresholdDetector { start_time: None }
    }

    /// Check if value exceeds threshold (value > threshold) with debounce timing.
    pub fn check(&mut self, value: u32, threshold: u32, now_ms: u64, debounce_ms: u64) -> (status: ThresholdStatus)
        requires
            (value > threshold && old(self)@ is Some) ==> old(self)@->0 + debounce_ms <= u64::MAX,
        ensures
            (final(self)@, status) == threshold_step(old(self)@, value, threshold, now_ms, debounce_ms),
    {
        if value > threshold {
            match self.start_time {
                None => {
                    self.start_time = Some(now_ms);
                    ThresholdStatus::Rising
                },
                Some(start) => {
                    if now_ms >= start + debounce_ms {
                        ThresholdStatus::Triggered
                    } else {
                        ThresholdStatus::Rising
                    }
                },
            }
        } else {
            self.start_time = None;
            ThresholdStatus::Below
        }
    }

    /// Reset the detector, clearing any in-progress detection.
    pub fn reset(&mut self)
        ensures
            final(self)@ is None,
    {
        self.start_time = None;
    }

    /// Check if detection is currently in progress (above threshold).
    pub fn is_active(&self) -> (active: bool)
        ensures
            active == self@ is Some,
    {
        self.start_time.is_some()
    }
}

/// Triggering needs the value to stay above the threshold for the debounce
/// time: a check triggers only if the detector was already active and the
/// value had exceeded the threshold at least `debounce_ms` earlier; once
/// triggered, it keeps triggering as long as the value stays above.
pub proof fn lemma_threshold_debounce(
    start: Option<u64>,
    value: u32,
    threshold: u32,
    now: u64,
    later: u64,
    debounce_ms: u64,
)
    ensures
        threshold_step(start, value, threshold, now, debounce_ms).1 == ThresholdStatus::Triggered
            ==> (value > threshold && start is Some && now >= start->0 + debounce_ms),
        (threshold_step(start, value, threshold, now, debounce_ms).1 == ThresholdStatus::Triggered
            && later >= now) ==> threshold_step(
            threshold_step(start, value, threshold, now, debounce_ms).0,
            value,
            threshold,
            later,
            debounce_ms,
        ).1 == ThresholdStatus::Triggered,
        value <= threshold ==> threshold_step(start, value, threshold, now, debounce_ms) == (
        None::<u64>, ThresholdStatus::Below),
{
}

} // verus!
