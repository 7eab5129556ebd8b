//! Stabilization tracking for spindle speed.
//!
//! Tracks how long it takes the spindle to reach target speed after a speed
//! change command. Used for performance monitoring and display feedback.
use crate::calibration::sequence::elapsed_spec;
use crate::stall::{abs_diff_spec, MAX_CLOCK_MS};
use vstd::prelude::*;

verus! {

/// Status of stabilization tracking.
#[derive(Debug, Clone, Copy, PartialEq, Eq)]
pub enum StabilizationStatus {
    /// Spindle is idle (requested RPM = 0)
    Idle,
    /// Spindle is accelerating/decelerating toward target
    Accelerating,
    /// Spindle has reached target speed (within tolerance)
    Stabilized,
    /// Flash duration expired, returning to normal display
    Normal,
}

/// Tolerance percentage for considering speed "stabilized" (+/-2%).
pub const TOLERANCE_PCT: u32 = 2;

/// How long to show stabilization time on display (4 seconds).
pub const FLASH_DURATION_MS: u64 = 4000;

/// Minimum RPM change to consider significant (filters noise).
pub const MIN_CHANGE_RPM: u32 = 100;

/// Minimum rate of change to detect speed change (RPM/second).
pub const MIN_RATE_THRESHOLD: u32 = 500;

/// The abstract state of a [`StabilizationTracker`].
pub struct StabilizationModel {
    pub change_start_time: Option<u64>,
    pub start_rpm: u32,
    pub target_rpm: u32,
    pub last_requested_rpm: u32,
    pub last_rpm_time: u64,
    pub last_stabilization_time_ms: Option<u32>,
    pub stabilization_detected_time: Option<u64>,
    pub reported: bool,
    pub initialized: bool,
}

/// `v` within +/-2% of `target` (the upper bound saturating at `u32::MAX`).
pub open spec fn within_tolerance_spec(v: u32, target: u32) -> bool {
    let tol = target * TOLERANCE_PCT / 100;
    let upper = if target + tol > u32::MAX { u32::MAX as int } else { target + tol };
    target - tol <= v && v <= upper
}

impl StabilizationModel {
    /// A changed request: restart tracking if the change is substantial
    /// (faster than 500 RPM/s and more than 100 RPM), and follow the new target.
    pub open spec fn on_new_target(self, requested_rpm: u32, actual_rpm: u32, now: u64) -> StabilizationModel {
        let drpm = abs_diff_spec(requested_rpm as int, self.last_requested_rpm as int);
        let dt = elapsed_spec(now, self.last_rpm_time);
        let rate = if dt > 0 { drpm * 1000 / dt } else { 0 };
        let substantial = rate > MIN_RATE_THRESHOLD && drpm > MIN_CHANGE_RPM;
        let m = if substantial {
            StabilizationModel {
                start_rpm: if self.last_requested_rpm == 0 { 0 } else { actual_rpm },
                change_start_time: Some(now),
                stabilization_detected_time: None,
                last_stabilization_time_ms: None,
                reported: false,
                ..self
            }
        } else {
            self
        };
        StabilizationModel { target_rpm: requested_rpm, ..m }
    }

    /// One reading: the next state, the status and the time to display.
    pub open spec fn step(self, requested_rpm: u32, actual_rpm: u32, now: u64) -> (
        StabilizationModel,
        (StabilizationStatus, Option<u32>),
    ) {
        if !self.initialized {
            (
                StabilizationModel {
                    initialized: true,
                    last_requested_rpm: requested_rpm,
                    last_rpm_time: now,
                    ..self
                },
                (StabilizationStatus::Idle, None),
            )
        } else if requested_rpm == 0 {
            (
                StabilizationModel {
                    change_start_time: None,
                    stabilization_detected_time: None,
                    last_stabilization_time_ms: None,
                    last_requested_rpm: 0,
                    last_rpm_time: now,
                    reported: false,
                    ..self
                },
                (StabilizationStatus::Idle, None),
            )
        } else {
            let m1 = if requested_rpm != self.last_requested_rpm {
                self.on_new_target(requested_rpm, actual_rpm, now)
            } else {
                self
            };
            let m = StabilizationModel {
                last_rpm_time: now,
                last_requested_rpm: requested_rpm,
                ..m1
            };
            match m.stabilization_detected_time {
                Some(detected) => if now < detected + FLASH_DURATION_MS {
                    (m, (StabilizationStatus::Stabilized, m.last_stabilization_time_ms))
                } else {
                    (
                        StabilizationModel { stabilization_detected_time: None, ..m },
                        (StabilizationStatus::Normal, None),
                    )
                },
                None => match m.change_start_time {
                    None => (m, (StabilizationStatus::Normal, None)),
                    Some(start) => if within_tolerance_spec(actual_rpm, m.target_rpm) {
                        let elapsed = elapsed_spec(now, start) as u32;
                        (
                            StabilizationModel {
                                last_stabilization_time_ms: Some(elapsed),
                                stabilization_detected_time: Some(now),
                                change_start_time: None,
                                ..m
                            },
                            (StabilizationStatus::Stabilized, Some(elapsed)),
                        )
                    } else {
                        (m, (StabilizationStatus::Accelerating, None))
                    },
                },
            }
        }
    }

    /// Stored timestamps within the clock bound, and a target whose
    /// tolerance product fits in `u32`.
    pub open spec fn bounded(self) -> bool {
        &&& self.last_rpm_time <= MAX_CLOCK_MS
        &&& (self.change_start_time matches Some(t) ==> t <= MAX_CLOCK_MS)
        &&& (self.stabilization_detected_time matches Some(t) ==> t <= MAX_CLOCK_MS)
        &&& self.target_rpm <= 0x7FFF_FFFF
    }

    /// The arithmetic of a reading stays within the machine types.
    pub open spec fn check_in_range(self, requested_rpm: u32, actual_rpm: u32, now: u64) -> bool {
        self.initialized && requested_rpm != 0 ==> {
            let m1 = if requested_rpm != self.last_requested_rpm {
                self.on_new_target(requested_rpm, actual_rpm, now)
            } else {
                self
            };
            match m1.stabilization_detected_time {
                Some(detected) => detected + FLASH_DURATION_MS <= u64::MAX,
                None => m1.change_start_time is Some ==> m1.target_rpm * TOLERANCE_PCT
                    <= u32::MAX,
            }
        }
    }
}

/// A bounded tracker fed a bounded time and request can take the reading
/// and stays bounded.
pub proof fn lemma_stabilization_bounded(m: StabilizationModel, requested_rpm: u32, actual_rpm: u32, now: u64)
    requires
        m.bounded(),
        now <= MAX_CLOCK_MS,
        requested_rpm <= 0x7FFF_FFFF,
    ensures
        m.check_in_range(requested_rpm, actual_rpm, now),
        m.step(requested_rpm, actual_rpm, now).0.bounded(),
{
}

/// An idle request is always reported as `Idle`, without a time, and (once
/// the tracker has seen a reading) cancels any pending speed change and
/// any shown stabilization time.
pub proof fn lemma_stabilization_idle(m: StabilizationModel, actual_rpm: u32, now: u64)
    ensures
        ({
            let (n, (status, time)) = m.step(0, actual_rpm, now);
            &&& status == StabilizationStatus::Idle
            &&& time is None
            &&& n.initialized
            &&& m.initialized ==> n.change_start_time is None
            &&& m.initialized ==> n.stabilization_detected_time is None
        }),
{
}

/// What the tracker reports agrees with its state: `Stabilized` shows the
/// last stabilization time, detected less than `FLASH_DURATION_MS` ago; a
/// newly detected stabilization reports the time elapsed since the speed
/// change began and the actual speed within tolerance of the target;
/// `Accelerating` means a change is pending and the speed is outside the
/// tolerance.
pub proof fn lemma_stabilization_reports(m: StabilizationModel, requested_rpm: u32, actual_rpm: u32, now: u64)
    requires
        m.check_in_range(requested_rpm, actual_rpm, now),
    ensures
        ({
            let (n, (status, time)) = m.step(requested_rpm, actual_rpm, now);
            &&& status == StabilizationStatus::Stabilized ==> {
                &&& time == n.last_stabilization_time_ms
                &&& n.stabilization_detected_time matches Some(d) && now < d + FLASH_DURATION_MS
            }
            &&& (status == StabilizationStatus::Stabilized && m.stabilization_detected_time is None
                && m.initialized && requested_rpm != m.last_requested_rpm) ==> (m.on_new_target(
                requested_rpm,
                actual_rpm,
                now,
            ).change_start_time matches Some(start) && time == Some(
                elapsed_spec(now, start) as u32,
            ) && within_tolerance_spec(actual_rpm, requested_rpm))
            &&& (status == StabilizationStatus::Stabilized && m.stabilization_detected_time is None
                && m.initialized && requested_rpm == m.last_requested_rpm) ==> (m.change_start_time
                matches Some(start) && time == Some(elapsed_spec(now, start) as u32)
                && within_tolerance_spec(actual_rpm, m.target_rpm))
            &&& status == StabilizationStatus::Accelerating ==> {
                &&& n.change_start_time is Some
                &&& !within_tolerance_spec(actual_rpm, n.target_rpm)
            }
        }),
{
}

/// The tolerance is a band on both sides of the target: a speed counts as
/// reached exactly when it differs from the target by at most 2% of the
/// target (truncated), above as well as below.
pub proof fn lemma_tolerance_band(v: u32, target: u32)
    ensures
        within_tolerance_spec(v, target) <==> (target - target * TOLERANCE_PCT / 100 <= v
            && v <= target + target * TOLERANCE_PCT / 100),
        within_tolerance_spec(v, target) ==> abs_diff_spec(v as int, target as int) <= target
            * TOLERANCE_PCT / 100,
{
}

/// A newly detected stabilization is reported only with the actual speed
/// within 2% of the target on either side.
pub proof fn lemma_stabilized_within_band(
    m: StabilizationModel,
    requested_rpm: u32,
    actual_rpm: u32,
    now: u64,
)
    requires
        m.check_in_range(requested_rpm, actual_rpm, now),
        m.initialized,
        m.stabilization_detected_time is None,
    ensures
        ({
            let (n, (status, time)) = m.step(requested_rpm, actual_rpm, now);
            status == StabilizationStatus::Stabilized ==> abs_diff_spec(
                actual_rpm as int,
                n.target_rpm as int,
            ) <= n.target_rpm * TOLERANCE_PCT / 100
        }),
{
    let (n, (status, time)) = m.step(requested_rpm, actual_rpm, now);
    lemma_stabilization_reports(m, requested_rpm, actual_rpm, now);
    lemma_tolerance_band(actual_rpm, n.target_rpm);
}

/// Tracks time from speed change to reaching +/-2% of target.
pub struct StabilizationTracker {
    change_start_time: Option<u64>,
    start_rpm: u32,
    target_rpm: u32,
    last_requested_rpm: u32,
    last_rpm_time: u64,
    last_stabilization_time_ms: Option<u32>,
    stabilization_detected_time: Option<u64>,
    reported: bool,
    initialized: bool,
}

impl View for StabilizationTracker {
    type V = StabilizationModel;

    closed spec fn view(&self) -> StabilizationModel {
        StabilizationModel {
            change_start_time: self.change_start_time,
            start_rpm: self.start_rpm,
            target_rpm: self.target_rpm,
            last_requested_rpm: self.last_requested_rpm,
            last_rpm_time: self.last_rpm_time,
            last_stabilization_time_ms: self.last_stabilization_time_ms,
            stabilization_detected_time: self.stabilization_detected_time,
            reported: self.reported,
            initialized: self.initialized,
        }
    }
}

impl Default for StabilizationTracker {
    fn default() -> (t: Self)
        ensures
            t@ == StabilizationTracker::initial(),
    {
        Self::new()
    }
}

impl StabilizationTracker {
    /// The state of a fresh tracker.
    pub open spec fn initial() -> StabilizationModel {
        StabilizationModel {
            change_start_time: None,
            start_rpm: 0,
            target_rpm: 0,
            last_requested_rpm: 0,
            last_rpm_time: 0,
            last_stabilization_time_ms: None,
            stabilization_detected_time: None,
            reported: false,
            initialized: false,
        }
    }

    /// Create a new stabilization tracker.
    pub fn new() -> (t: Self)
        ensures
            t@ == StabilizationTracker::initial(),
    {
        StabilizationTracker {
            change_start_time: None,
            start_rpm: 0,
            target_rpm: 0,
            last_requested_rpm: 0,
            last_rpm_time: 0,
            last_stabilization_time_ms: None,
            stabilization_detected_time: None,
            reported: false,
            initialized: false,
        }
    }

    /// Get debug info for logging (start_rpm, target_rpm).
    pub fn get_debug_info(&self) -> (info: (u32, u32))
        ensures
            info == (self@.start_rpm, self@.target_rpm),
    {
        (self.start_rpm, self.target_rpm)
    }

    /// Check stabilization status and return optional time to display.
    ///
    /// In analog mode, Carvera sends the target speed immediately without incrementing,
    /// so stabilization is reported as soon as actual RPM reaches +/-2% tolerance.
    pub fn check(&mut self, requested_rpm: u32, actual_rpm: u32, now_ms: u64) -> (r: (
        StabilizationStatus,
        Option<u32>,
    ))
        requires
            old(self)@.check_in_range(requested_rpm, actual_rpm, now_ms),
        ensures
            (final(self)@, r) == old(self)@.step(requested_rpm, actual_rpm, now_ms),
    {
        if !self.initialized {
            self.initialized = true;
            self.last_requested_rpm = requested_rpm;
            self.last_rpm_time = now_ms;
            return (StabilizationStatus::Idle, None);
        }
        if requested_rpm == 0 {
            self.change_start_time = None;
            self.stabilization_detected_time = None;
            self.last_stabilization_time_ms = None;
            self.last_requested_rpm = 0;
            self.last_rpm_time = now_ms;
            self.reported = false;
            return (StabilizationStatus::Idle, None);
        }
        if requested_rpm != self.last_requested_rpm {
            let rpm_delta = if requested_rpm >= self.last_requested_rpm {
                requested_rpm - self.last_requested_rpm
            } else {
                self.last_requested_rpm - requested_rpm
            };
            let time_delta_ms = now_ms.saturating_sub(self.last_rpm_time);
            let was_idle = self.last_requested_rpm == 0;
            let rate_per_sec = if time_delta_ms > 0 {
                (rpm_delta as u64 * 1000) / time_delta_ms
            } else {
                0
            };
            let substantial_change = rate_per_sec > MIN_RATE_THRESHOLD as u64 && rpm_delta
                > MIN_CHANGE_RPM;
            if substantial_change {
                self.start_rpm = if was_idle {
                    0
                } else {
                    actual_rpm
                };
                self.change_start_time = Some(now_ms);
                self.stabilization_detected_time = None;
                self.last_stabilization_time_ms = None;
                self.reported = false;
            }
            self.target_rpm = requested_rpm;
        }
        self.last_rpm_time = now_ms;
        self.last_requested_rpm = requested_rpm;

        if self.change_start_time.is_none() {
            if let Some(detected_time) = self.stabilization_detected_time {
                if now_ms < detected_time + FLASH_DURATION_MS {
                    return (StabilizationStatus::Stabilized, self.last_stabilization_time_ms);
                } else {
                    self.stabilization_detected_time = None;
                    return (StabilizationStatus::Normal, None);
                }
            }
            return (StabilizationStatus::Normal, None);
        }
        if let Some(detected_time) = self.stabilization_detected_time {
            if now_ms < detected_time + FLASH_DURATION_MS {
                return (StabilizationStatus::Stabilized, self.last_stabilization_time_ms);
            } else {
                self.stabilization_detected_time = None;
                return (StabilizationStatus::Normal, None);
            }
        }
        let tolerance = (self.target_rpm * TOLERANCE_PCT) / 100;
        let lower_bound = self.target_rpm.saturating_sub(tolerance);
        let upper_bound = self.target_rpm.saturating_add(tolerance);
        let within_tolerance = actual_rpm >= lower_bound && actual_rpm <= upper_bound;
        if within_tolerance {
            if let Some(start_time) = self.change_start_time {
                let elapsed_ms = now_ms.saturating_sub(start_time) as u32;
                self.last_stabilization_time_ms = Some(elapsed_ms);
                self.stabilization_detected_time = Some(now_ms);
                self.change_start_time = None;
                return (StabilizationStatus::Stabilized, Some(elapsed_ms));
            }
        }
        (StabilizationStatus::Accelerating, None)
    }

    /// Check if this stabilization event has been reported (for debug logging).
    pub fn is_reported(&self) -> (r: bool)
        ensures
            r == self@.reported,
    {
        self.reported
    }

    /// Mark the current stabilization event as reported.
    pub fn mark_reported(&mut self)
        ensures
            final(self)@ == (StabilizationModel { reported: true, ..old(self)@ }),
    {
        self.reported = true;
    }
}

} // verus!
