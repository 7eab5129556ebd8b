//! Stall detection for spindle monitoring.
//!
//! Identifies when the spindle speed drops significantly below the requested
//! speed, indicating a possible stall condition (e.g., tool jammed in material).
use crate::calibration::sequence::elapsed_spec;
use vstd::prelude::*;

verus! {

/// Result of stall detection check.
#[derive(Debug, Clone, Copy, PartialEq, Eq)]
pub enum StallStatus {
    /// Normal operation, no stall detected
    Normal,
    /// In grace period after speed change, stall detection suspended
    GracePeriod,
    /// Speed is below threshold, within debounce period
    Warning,
    /// Stall confirmed (persisted through debounce)
    Stalled,
    /// Recovering from stall, within hysteresis period
    Recovering,
    /// Decelerating (commanded slowdown), stall detection suspended
    Decelerating,
}

/// Configuration parameters for stall detection.
#[derive(Debug, Clone, Copy)]
pub struct StallConfig {
    /// Stall threshold (stall if actual < threshold% of requested)
    pub threshold_pct: u32,
    /// Base grace period after speed change (ms)
    pub base_grace_ms: u64,
    /// Additional grace ms per 1000 RPM
    pub rpm_grace_factor: u64,
    /// Time stall condition must persist (ms)
    pub debounce_ms: u64,
    /// Time recovery condition must persist (ms)
    pub recovery_ms: u64,
    /// Minimum rate of change to reset grace period (RPM/second)
    pub rate_threshold: u32,
}

/// Alert release delay in milliseconds (2 seconds after spindle command = 0).
pub const ALERT_RELEASE_DELAY_MS: u64 = 2000;

/// Millisecond timestamps handed to the detectors stay at or below this
/// bound (2^62 ms, about 146 million years of uptime).
pub const MAX_CLOCK_MS: u64 = 0x3FFF_FFFF_FFFF_FFFF;

/// Absolute difference of two values.
pub open spec fn abs_diff_spec(a: int, b: int) -> int {
    if a >= b {
        a - b
    } else {
        b - a
    }
}

/// Grace period after a speed change: base + (rpm / 1000) * factor.
pub open spec fn grace_spec(target_rpm: u32, base_grace_ms: u64, rpm_grace_factor: u64) -> int {
    base_grace_ms + (target_rpm / 1000) * rpm_grace_factor
}

/// The abstract state of a [`StallDetector`].
pub struct StallModel {
    pub last_speed_change_time: u64,
    pub last_requested_rpm: u32,
    pub last_rpm_time: u64,
    pub stall_start_time: Option<u64>,
    pub recovery_start_time: Option<u64>,
    pub stall_latched: bool,
    pub initialized: bool,
    pub alert_release_time: Option<u64>,
}

/// The bookkeeping of one monitored reading of a running spindle.
pub struct RateInfo {
    /// The requested speed changes fast (above the rate threshold).
    pub significant: bool,
    /// Commanded slowdown (significant and lower than before).
    pub decelerating: bool,
    /// Significant change of more than 100 RPM: restarts the grace period.
    pub substantial: bool,
}

impl StallModel {
    /// Rate-of-change classification of a new request.
    pub open spec fn rate(self, requested_rpm: u32, now: u64, cfg: StallConfig) -> RateInfo {
        let dt = elapsed_spec(now, self.last_rpm_time);
        let drpm = abs_diff_spec(requested_rpm as int, self.last_requested_rpm as int);
        let rate = if dt > 0 { drpm * 1000 / dt } else { 0 };
        let significant = rate > cfg.rate_threshold;
        RateInfo {
            significant,
            decelerating: requested_rpm < self.last_requested_rpm && significant,
            substantial: significant && drpm > 100,
        }
    }

    /// Latched but restarted: the latch and the timers are cleared and the
    /// grace period starts again.
    pub open spec fn restarted(self, now: u64) -> StallModel {
        StallModel {
            stall_latched: false,
            alert_release_time: None,
            stall_start_time: None,
            recovery_start_time: None,
            last_speed_change_time: now,
            ..self
        }
    }

    /// Whether the latch holds this reading (it is released only by a
    /// restart after the spindle command went to zero).
    pub open spec fn holds_latch(self, requested_rpm: u32) -> bool {
        self.stall_latched && !(requested_rpm > 0 && self.alert_release_time is Some)
    }

    /// Stall monitoring of an initialized, unlatched detector.
    pub open spec fn monitor(self, requested_rpm: u32, actual_rpm: u32, now: u64, cfg: StallConfig) -> (
        StallModel,
        StallStatus,
    ) {
        if requested_rpm == 0 {
            (
                StallModel {
                    stall_start_time: None,
                    recovery_start_time: None,
                    last_requested_rpm: 0,
                    last_rpm_time: now,
                    ..self
                },
                StallStatus::Normal,
            )
        } else {
            let info = self.rate(requested_rpm, now, cfg);
            let change = if info.substantial { now } else { self.last_speed_change_time };
            let m = StallModel {
                last_speed_change_time: change,
                last_rpm_time: now,
                last_requested_rpm: requested_rpm,
                ..self
            };
            if info.decelerating {
                (m, StallStatus::Decelerating)
            } else if now < change + grace_spec(
                requested_rpm,
                cfg.base_grace_ms,
                cfg.rpm_grace_factor,
            ) {
                (m, StallStatus::GracePeriod)
            } else if actual_rpm < requested_rpm * cfg.threshold_pct / 100 {
                match m.stall_start_time {
                    None => (
                        StallModel { stall_start_time: Some(now), recovery_start_time: None, ..m },
                        StallStatus::Warning,
                    ),
                    Some(start) => if now >= start + cfg.debounce_ms {
                        (
                            StallModel { recovery_start_time: None, stall_latched: true, ..m },
                            StallStatus::Stalled,
                        )
                    } else {
                        (StallModel { recovery_start_time: None, ..m }, StallStatus::Warning)
                    },
                }
            } else if m.stall_start_time is Some {
                match m.recovery_start_time {
                    None => (
                        StallModel { recovery_start_time: Some(now), ..m },
                        StallStatus::Recovering,
                    ),
                    Some(start) => if now >= start + cfg.recovery_ms {
                        (
                            StallModel { stall_start_time: None, recovery_start_time: None, ..m },
                            StallStatus::Normal,
                        )
                    } else {
                        (m, StallStatus::Recovering)
                    },
                }
            } else {
                (m, StallStatus::Normal)
            }
        }
    }

    /// One reading: the next state and the reported status.
    pub open spec fn step(self, requested_rpm: u32, actual_rpm: u32, now: u64, cfg: StallConfig) -> (
        StallModel,
        StallStatus,
    ) {
        if !self.initialized {
            (
                StallModel {
                    initialized: true,
                    last_requested_rpm: requested_rpm,
                    last_rpm_time: now,
                    last_speed_change_time: now,
                    ..self
                },
                StallStatus::GracePeriod,
            )
        } else if self.holds_latch(requested_rpm) {
            if requested_rpm == 0 && self.alert_release_time is None {
                (
                    StallModel {
                        alert_release_time: Some((now + ALERT_RELEASE_DELAY_MS) as u64),
                        ..self
                    },
                    StallStatus::Stalled,
                )
            } else {
                (self, StallStatus::Stalled)
            }
        } else if self.stall_latched {
            self.restarted(now).monitor(requested_rpm, actual_rpm, now, cfg)
        } else {
            self.monitor(requested_rpm, actual_rpm, now, cfg)
        }
    }

    /// The arithmetic of a monitored reading stays within the machine types.
    pub open spec fn monitor_in_range(self, requested_rpm: u32, actual_rpm: u32, now: u64, cfg: StallConfig) -> bool {
        requested_rpm == 0 || {
            let info = self.rate(requested_rpm, now, cfg);
            let change = if info.substantial { now } else { self.last_speed_change_time };
            info.decelerating || {
                &&& change + grace_spec(requested_rpm, cfg.base_grace_ms, cfg.rpm_grace_factor) <= u64::MAX
                &&& now >= change + grace_spec(requested_rpm, cfg.base_grace_ms, cfg.rpm_grace_factor)
                    ==> {
                    &&& requested_rpm * cfg.threshold_pct <= u32::MAX
                    &&& (actual_rpm < requested_rpm * cfg.threshold_pct / 100
                        && self.stall_start_time is Some) ==> self.stall_start_time->0
                        + cfg.debounce_ms <= u64::MAX
                    &&& (actual_rpm >= requested_rpm * cfg.threshold_pct / 100
                        && self.stall_start_time is Some && self.recovery_start_time is Some)
                        ==> self.recovery_start_time->0 + cfg.recovery_ms <= u64::MAX
                }
            }
        }
    }

    /// The arithmetic of a reading stays within the machine types.
    pub open spec fn check_in_range(self, requested_rpm: u32, actual_rpm: u32, now: u64, cfg: StallConfig) -> bool {
        if !self.initialized {
            true
        } else if self.holds_latch(requested_rpm) {
            (requested_rpm == 0 && self.alert_release_time is None) ==> now
                + ALERT_RELEASE_DELAY_MS <= u64::MAX
        } else if self.stall_latched {
            self.restarted(now).monitor_in_range(requested_rpm, actual_rpm, now, cfg)
        } else {
            self.monitor_in_range(requested_rpm, actual_rpm, now, cfg)
        }
    }

    /// All stored timestamps lie within the clock bound (a release time at
    /// most the release delay beyond it).
    pub open spec fn timestamps_bounded(self) -> bool {
        &&& self.last_speed_change_time <= MAX_CLOCK_MS
        &&& self.last_rpm_time <= MAX_CLOCK_MS
        &&& (self.stall_start_time matches Some(t) ==> t <= MAX_CLOCK_MS)
        &&& (self.recovery_start_time matches Some(t) ==> t <= MAX_CLOCK_MS)
        &&& (self.alert_release_time matches Some(t) ==> t <= MAX_CLOCK_MS + ALERT_RELEASE_DELAY_MS)
    }

    /// After `reset()`: latch, timers and initialization cleared.
    pub open spec fn reset(self) -> StallModel {
        StallModel {
            stall_latched: false,
            stall_start_time: None,
            recovery_start_time: None,
            alert_release_time: None,
            initialized: false,
            ..self
        }
    }

    /// Whether the stall alert output is active.
    pub open spec fn alert_active(self, requested_rpm: u32, now: u64) -> bool {
        if !self.stall_latched {
            false
        } else if requested_rpm > 0 {
            true
        } else {
            match self.alert_release_time {
                Some(release) => now < release,
                None => true,
            }
        }
    }
}

/// Configuration values small enough that no timing sum can overflow.
pub open spec fn config_bounded(cfg: StallConfig) -> bool {
    &&& cfg.base_grace_ms <= 0xFFFF_FFFF
    &&& cfg.rpm_grace_factor <= 0xF_FFFF
    &&& cfg.debounce_ms <= 0xFFFF_FFFF
    &&& cfg.recovery_ms <= 0xFFFF_FFFF
}

/// With timestamps within the clock bound, a bounded configuration and a
/// request whose threshold product fits in `u32`, a reading can be taken
/// and keeps the timestamps bounded.
pub proof fn lemma_stall_bounded(m: StallModel, requested_rpm: u32, actual_rpm: u32, now: u64, cfg: StallConfig)
    requires
        m.timestamps_bounded(),
        now <= MAX_CLOCK_MS,
        config_bounded(cfg),
        requested_rpm * cfg.threshold_pct <= u32::MAX,
    ensures
        m.check_in_range(requested_rpm, actual_rpm, now, cfg),
        m.step(requested_rpm, actual_rpm, now, cfg).0.timestamps_bounded(),
{
    let g = grace_spec(requested_rpm, cfg.base_grace_ms, cfg.rpm_grace_factor);
    assert(g <= 0xFFFF_FFFF + 4294967 * 0xF_FFFF) by (nonlinear_arith)
        requires
            g == cfg.base_grace_ms + (requested_rpm / 1000) * cfg.rpm_grace_factor,
            cfg.base_grace_ms <= 0xFFFF_FFFF,
            cfg.rpm_grace_factor <= 0xF_FFFF,
            requested_rpm / 1000 <= 4294967,
    ;
}

/// Error latching: a latched stall is reported as `Stalled` on every
/// reading and stays latched until the spindle is restarted after its
/// command went to zero (or the detector is reset). While commanded, the
/// alert output stays active; once the command is zero the alert releases
/// `ALERT_RELEASE_DELAY_MS` after the first zero reading, while the visual
/// latch persists.
pub proof fn lemma_stall_latch_holds(
    m: StallModel,
    requested_rpm: u32,
    actual_rpm: u32,
    now: u64,
    cfg: StallConfig,
)
    requires
        m.initialized,
        m.stall_latched,
        !(requested_rpm > 0 && m.alert_release_time is Some),
    ensures
        ({
            let (n, status) = m.step(requested_rpm, actual_rpm, now, cfg);
            &&& status == StallStatus::Stalled
            &&& n.stall_latched
            &&& n.initialized
            &&& requested_rpm > 0 ==> forall|t: u64| #[trigger] n.alert_active(requested_rpm, t)
            &&& requested_rpm == 0 ==> n.alert_release_time == Some(
                match m.alert_release_time {
                    Some(r) => r,
                    None => (now + ALERT_RELEASE_DELAY_MS) as u64,
                },
            )
            &&& requested_rpm == 0 ==> forall|t: u64| #[trigger] n.alert_active(0, t) == (t
                < n.alert_release_time->0)
        }),
{
}

/// Debounce: a reading latches a stall only if the speed had already been
/// below the threshold since at least `debounce_ms` earlier, with the
/// spindle commanded and outside its grace period; and `Stalled` is only
/// ever reported with the latch set.
pub proof fn lemma_stall_latch_needs_debounce(
    m: StallModel,
    requested_rpm: u32,
    actual_rpm: u32,
    now: u64,
    cfg: StallConfig,
)
    ensures
        ({
            let (n, status) = m.step(requested_rpm, actual_rpm, now, cfg);
            &&& status == StallStatus::Stalled ==> n.stall_latched
            &&& (n.stall_latched && !m.stall_latched) ==> {
                &&& m.initialized
                &&& requested_rpm > 0
                &&& actual_rpm < requested_rpm * cfg.threshold_pct / 100
                &&& m.stall_start_time matches Some(start) && now >= start + cfg.debounce_ms
            }
        }),
{
}

/// Hysteresis: while the spindle is commanded, a pending stall is only
/// forgotten once the speed has stayed above the threshold since at least
/// `recovery_ms` earlier.
pub proof fn lemma_stall_recovery_needs_hysteresis(
    m: StallModel,
    requested_rpm: u32,
    actual_rpm: u32,
    now: u64,
    cfg: StallConfig,
)
    requires
        m.initialized,
        !m.stall_latched,
        requested_rpm > 0,
    ensures
        ({
            let (n, status) = m.step(requested_rpm, actual_rpm, now, cfg);
            (m.stall_start_time is Some && n.stall_start_time is None) ==> {
                &&& status == StallStatus::Normal
                &&& actual_rpm >= requested_rpm * cfg.threshold_pct / 100
                &&& m.recovery_start_time matches Some(start) && now >= start + cfg.recovery_ms
            }
        }),
{
}

/// Every reading of a running request is remembered: after any reading with
/// a non-zero request that the latch does not hold, the detector's last
/// request is that request, so that repeating the same request is never
/// taken for a commanded slowdown.
pub proof fn lemma_stall_remembers_request(
    m: StallModel,
    requested_rpm: u32,
    actual_rpm: u32,
    now: u64,
    later_actual_rpm: u32,
    later: u64,
    cfg: StallConfig,
)
    requires
        requested_rpm > 0,
        !m.holds_latch(requested_rpm),
    ensures
        ({
            let (n, status) = m.step(requested_rpm, actual_rpm, now, cfg);
            &&& n.last_requested_rpm == requested_rpm
            &&& (n.initialized && !n.stall_latched) ==> n.step(
                requested_rpm,
                later_actual_rpm,
                later,
                cfg,
            ).1 != StallStatus::Decelerating
        }),
{
}

/// An idle spindle is never stalled: with a zero command and no latch, an
/// initialized detector reports `Normal` and forgets any pending stall or
/// recovery.
pub proof fn lemma_stall_idle_is_normal(m: StallModel, actual_rpm: u32, now: u64, cfg: StallConfig)
    requires
        m.initialized,
        !m.stall_latched,
    ensures
        ({
            let (n, status) = m.step(0, actual_rpm, now, cfg);
            &&& status == StallStatus::Normal
            &&& !n.stall_latched
            &&& n.stall_start_time is None
            &&& n.recovery_start_time is None
        }),
{
}

/// Stall detection state for spindle monitoring.
///
/// Features:
/// - Dynamic grace period: scales with target RPM to allow for acceleration
/// - Stall threshold: configurable percentage below which stall is detected
/// - Debounce: requires stall condition to persist before triggering
/// - Hysteresis: requires recovery condition to persist before clearing
/// - Deceleration handling: suspends detection during commanded slowdown
/// - Rate-of-change filtering: ignores small RPM jitter that would reset grace period
/// - Error latching: once triggered, stays latched until reset
/// - Two-phase latch: visual latch persists, but electrical alert auto-releases
///   after spindle command is zero for 2 seconds
#[derive(Clone)]
pub struct StallDetector {
    last_speed_change_time: u64,
    last_requested_rpm: u32,
    last_rpm_time: u64,
    stall_start_time: Option<u64>,
    recovery_start_time: Option<u64>,
    stall_latched: bool,
    initialized: bool,
    alert_release_time: Option<u64>,
}

impl View for StallDetector {
    type V = StallModel;

    closed spec fn view(&self) -> StallModel {
        StallModel {
            last_speed_change_time: self.last_speed_change_time,
            last_requested_rpm: self.last_requested_rpm,
            last_rpm_time: self.last_rpm_time,
            stall_start_time: self.stall_start_time,
            recovery_start_time: self.recovery_start_time,
            stall_latched: self.stall_latched,
            initialized: self.initialized,
            alert_release_time: self.alert_release_time,
        }
    }
}

impl Default for StallDetector {
    fn default() -> (d: Self)
        ensures
            d@ == StallDetector::initial(),
    {
        Self::new()
    }
}

impl StallDetector {
    /// The state of a fresh detector.
    pub open spec fn initial() -> StallModel {
        StallModel {
            last_speed_change_time: 0,
            last_requested_rpm: 0,
            last_rpm_time: 0,
            stall_start_time: None,
            recovery_start_time: None,
            stall_latched: false,
            initialized: false,
            alert_release_time: None,
        }
    }

    /// Create a new stall detector.
    pub fn new() -> (d: Self)
        ensures
            d@ == StallDetector::initial(),
    {
        StallDetector {
            last_speed_change_time: 0,
            last_requested_rpm: 0,
            last_rpm_time: 0,
            stall_start_time: None,
            recovery_start_time: None,
            stall_latched: false,
            initialized: false,
            alert_release_time: None,
        }
    }

    /// Reset the stall detector, clearing latched state and forcing re-initialization.
    pub fn reset(&mut self)
        ensures
            final(self)@ == old(self)@.reset(),
    {
        self.stall_latched = false;
        self.stall_start_time = None;
        self.recovery_start_time = None;
        self.alert_release_time = None;
        self.initialized = false;
    }

    /// Check if stall is currently latched (for display purposes).
    pub fn is_latched(&self) -> (latched: bool)
        ensures
            latched == self@.stall_latched,
    {
        self.stall_latched
    }

    /// Whether the detector has taken its first reading since creation or reset.
    pub fn is_initialized(&self) -> (initialized: bool)
        ensures
            initialized == self@.initialized,
    {
        self.initialized
    }

    /// Check if the alert signal should be active (GPIO10 output to Carvera).
    ///
    /// The alert auto-releases 2 seconds after spindle command drops to zero,
    /// but the visual latch (`is_latched()`) persists until spindle restarts.
    pub fn is_alert_active(&self, requested_rpm: u32, now_ms: u64) -> (active: bool)
        ensures
            active == self@.alert_active(requested_rpm, now_ms),
    {
        if !self.stall_latched {
            return false;
        }
        if requested_rpm > 0 {
            return true;
        }
        match self.alert_release_time {
            Some(release_time) => now_ms < release_time,
            None => true,
        }
    }

    /// Calculate dynamic grace period based on target RPM.
    /// Formula: base_grace_ms + (target_rpm / 1000) * rpm_grace_factor
    pub fn calculate_grace_period(target_rpm: u32, base_grace_ms: u64, rpm_grace_factor: u64) -> (grace: u64)
        requires
            grace_spec(target_rpm, base_grace_ms, rpm_grace_factor) <= u64::MAX,
        ensures
            grace == grace_spec(target_rpm, base_grace_ms, rpm_grace_factor),
    {
        let k = (target_rpm as u64) / 1000;
        assert(k * rpm_grace_factor <= grace_spec(target_rpm, base_grace_ms, rpm_grace_factor))
            by (nonlinear_arith)
            requires
                k == target_rpm / 1000,
                base_grace_ms >= 0,
        ;
        base_grace_ms + k * rpm_grace_factor
    }

    fn monitor(&mut self, requested_rpm: u32, actual_rpm: u32, now_ms: u64, config: &StallConfig) -> (status: StallStatus)
        requires
            old(self)@.monitor_in_range(requested_rpm, actual_rpm, now_ms, *config),
        ensures
            (final(self)@, status) == old(self)@.monitor(requested_rpm, actual_rpm, now_ms, *config),
    {
        if requested_rpm == 0 {
            self.stall_start_time = None;
            self.recovery_start_time = None;
            self.last_requested_rpm = 0;
            self.last_rpm_time = now_ms;
            return StallStatus::Normal;
        }
        let time_delta_ms = now_ms.saturating_sub(self.last_rpm_time);
        let rpm_delta = if requested_rpm >= self.last_requested_rpm {
            requested_rpm - self.last_requested_rpm
        } else {
            self.last_requested_rpm - requested_rpm
        };
        let rate_per_sec = if time_delta_ms > 0 {
            (rpm_delta as u64 * 1000) / time_delta_ms
        } else {
            0
        };
        let significant_change = rate_per_sec > config.rate_threshold as u64;
        let decelerating = requested_rpm < self.last_requested_rpm && significant_change;
        let substantial_change = significant_change && rpm_delta > 100;
        if substantial_change {
            self.last_speed_change_time = now_ms;
        }
        self.last_rpm_time = now_ms;
        self.last_requested_rpm = requested_rpm;

        if decelerating {
            return StallStatus::Decelerating;
        }
        proof {
            let g = grace_spec(requested_rpm, config.base_grace_ms, config.rpm_grace_factor);
            assert(g >= config.base_grace_ms + 0) by (nonlinear_arith)
                requires
                    g == config.base_grace_ms + (requested_rpm / 1000) * config.rpm_grace_factor,
            ;
        }
        let grace_period = Self::calculate_grace_period(
            requested_rpm,
            config.base_grace_ms,
            config.rpm_grace_factor,
        );
        if now_ms < self.last_speed_change_time + grace_period {
            return StallStatus::GracePeriod;
        }
        let threshold_rpm = (requested_rpm * config.threshold_pct) / 100;
        let is_below_threshold = actual_rpm < threshold_rpm;

        if is_below_threshold {
            self.recovery_start_time = None;
            match self.stall_start_time {
                None => {
                    self.stall_start_time = Some(now_ms);
                    StallStatus::Warning
                },
                Some(start) => {
                    if now_ms >= start + config.debounce_ms {
                        self.stall_latched = true;
                        StallStatus::Stalled
                    } else {
                        StallStatus::Warning
                    }
                },
            }
        } else {
            if self.stall_start_time.is_some() {
                match self.recovery_start_time {
                    None => {
                        self.recovery_start_time = Some(now_ms);
                        StallStatus::Recovering
                    },
                    Some(start) => {
                        if now_ms >= start + config.recovery_ms {
                            self.stall_start_time = None;
                            self.recovery_start_time = None;
                            StallStatus::Normal
                        } else {
                            StallStatus::Recovering
                        }
                    },
                }
            } else {
                StallStatus::Normal
            }
        }
    }

    /// Check for stall condition.
    pub fn check(&mut self, requested_rpm: u32, actual_rpm: u32, now_ms: u64, config: &StallConfig) -> (status: StallStatus)
        requires
            old(self)@.check_in_range(requested_rpm, actual_rpm, now_ms, *config),
        ensures
            (final(self)@, status) == old(self)@.step(requested_rpm, actual_rpm, now_ms, *config),
    {
        if !self.initialized {
            self.initialized = true;
            self.last_requested_rpm = requested_rpm;
            self.last_rpm_time = now_ms;
            self.last_speed_change_time = now_ms;
            return StallStatus::GracePeriod;
        }
        if self.stall_latched {
            if requested_rpm > 0 && self.alert_release_time.is_some() {
                self.stall_latched = false;
                self.alert_release_time = None;
                self.stall_start_time = None;
                self.recovery_start_time = None;
                self.last_speed_change_time = now_ms;
            } else if requested_rpm == 0 {
                if self.alert_release_time.is_none() {
                    self.alert_release_time = Some(now_ms + ALERT_RELEASE_DELAY_MS);
                }
                return StallStatus::Stalled;
            } else {
                return StallStatus::Stalled;
            }
        }
        self.monitor(requested_rpm, actual_rpm, now_ms, config)
    }
}

} // verus!
