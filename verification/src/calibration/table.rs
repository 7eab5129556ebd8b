//! Calibration table storage, lookup, and interpolation.
//!
//! Holds the active calibration data and maps raw measured duties to true
//! RPM by piecewise-linear interpolation within the evenly spaced table.
use super::{
    empty_calibration_table, CalibrationPoint, CalibrationTable, CAL_STEPS, CAL_STEP_RPM,
    OFF_THRESHOLD,
};
use crate::state::config::CARVERA_SPINDLE_MAX_RPM;
use vstd::prelude::*;

verus! {

/// The abstract content of a [`CalibrationStore`].
pub struct StoreModel {
    /// All point slots; the first `count` are valid.
    pub points: Seq<CalibrationPoint>,
    /// Number of valid points (0 = no calibration).
    pub count: u16,
    /// Correction is bypassed while a calibration recording/dump/clear runs.
    pub recording: bool,
}

/// Active calibration data: written once per calibration run or boot, read
/// by the control loop for every correction.
pub struct CalibrationStore {
    points: [CalibrationPoint; CAL_STEPS],
    count: u16,
    recording: bool,
}

impl View for CalibrationStore {
    type V = StoreModel;

    closed spec fn view(&self) -> StoreModel {
        StoreModel { points: self.points@, count: self.count, recording: self.recording }
    }
}

/// The all-zero point that fills unused table slots.
pub open spec fn zero_point() -> CalibrationPoint {
    CalibrationPoint { expected_rpm: 0, measured_duty: 0 }
}

/// The first `count` points of `points`, zero after them.
pub open spec fn zero_padded(points: Seq<CalibrationPoint>, count: int) -> Seq<CalibrationPoint> {
    Seq::new(CAL_STEPS as nat, |i: int| if i < count { points[i] } else { zero_point() })
}

impl StoreModel {
    /// The store after the first `count` of `points` became the active
    /// calibration (the slots after them keep what they held).
    pub open spec fn with_table(self, points: Seq<CalibrationPoint>, count: u16) -> StoreModel {
        StoreModel {
            points: Seq::new(
                CAL_STEPS as nat,
                |i: int| if i < count { points[i] } else { self.points[i] },
            ),
            count,
            recording: self.recording,
        }
    }

    /// Point `i` of the active calibration, if there is one.
    pub open spec fn point(self, i: int) -> Option<CalibrationPoint> {
        if 0 <= i < self.count {
            Some(self.points[i])
        } else {
            None
        }
    }

    /// The points of the table read back: none without calibration,
    /// otherwise the valid points padded with zeros.
    pub open spec fn table_read(self) -> Option<Seq<CalibrationPoint>> {
        if self.count == 0 {
            None
        } else {
            Some(zero_padded(self.points, self.count as int))
        }
    }
}

/// What a store gives back of a calibration written to it: point `i` of
/// the first `count` is the written point and there is none after them; the
/// table read back holds the written points padded with zeros, so a table
/// already padded with zeros (as the recorder and the flash loader build
/// them) reads back unchanged; and after clearing there is nothing to read.
pub proof fn lemma_store_round_trip(m: StoreModel, points: Seq<CalibrationPoint>, count: u16)
    requires
        m.points.len() == CAL_STEPS,
        points.len() == CAL_STEPS,
        count <= CAL_STEPS,
    ensures
        forall|i: int|
            #![trigger m.with_table(points, count).point(i)]
            m.with_table(points, count).point(i) == (if 0 <= i < count {
                Some(points[i])
            } else {
                None
            }),
        count > 0 ==> m.with_table(points, count).table_read() == Some(
            zero_padded(points, count as int),
        ),
        (count > 0 && points == zero_padded(points, count as int)) ==> m.with_table(
            points,
            count,
        ).table_read() == Some(points),
        count == 0 ==> m.with_table(points, count).table_read() is None,
        (StoreModel { count: 0, ..m.with_table(points, count) }).table_read() is None,
        forall|i: int|
            #![trigger (StoreModel { count: 0, ..m }).point(i)]
            (StoreModel { count: 0, ..m }).point(i) is None,
{
    let n = m.with_table(points, count);
    if count > 0 {
        assert(zero_padded(n.points, count as int) =~= zero_padded(points, count as int));
    }
}

/// Index of the lower bracket point for `raw_duty`: the approximate RPM
/// `raw_duty * CARVERA_SPINDLE_MAX_RPM / 10000` located in the table spaced
/// CAL_STEP_RPM apart from `first_rpm`, floored, at least 0 and at most
/// `count - 2`.
pub open spec fn bracket_index_spec(raw_duty: int, first_rpm: int, count: int) -> int {
    let num = raw_duty * CARVERA_SPINDLE_MAX_RPM - first_rpm * 10000;
    let idx = if num < 0 { 0 } else { num / (CAL_STEP_RPM * 10000) };
    if idx < count - 2 { idx } else { count - 2 }
}

/// RPM interpolated between bracket points `lo` and `hi` for `raw_duty`:
/// `lo_rpm + t * (hi_rpm - lo_rpm)` with `t = (raw - lo_duty) / (hi_duty - lo_duty)`
/// clamped to [0, 1], rounded half up; a degenerate bracket (equal duties)
/// gives `lo_rpm`.
pub open spec fn interpolate_spec(raw_duty: int, lo: CalibrationPoint, hi: CalibrationPoint) -> int {
    let den = hi.measured_duty - lo.measured_duty;
    let lo_rpm = lo.expected_rpm as int;
    let hi_rpm = hi.expected_rpm as int;
    if den == 0 {
        lo_rpm
    } else {
        let n = if den > 0 { raw_duty - lo.measured_duty } else { lo.measured_duty - raw_duty };
        let d = if den > 0 { den } else { -den };
        if n <= 0 {
            lo_rpm
        } else if n >= d {
            hi_rpm
        } else {
            (2 * lo_rpm * d + 2 * n * (hi_rpm - lo_rpm) + d) / (2 * d)
        }
    }
}

/// Interpolation stays within its bracket: the RPM lies between the RPMs
/// of the two bracket points, whatever the raw duty.
pub proof fn lemma_interpolation_within_bracket(raw_duty: int, lo: CalibrationPoint, hi: CalibrationPoint)
    ensures
        ({
            let r = interpolate_spec(raw_duty, lo, hi);
            let a = lo.expected_rpm as int;
            let b = hi.expected_rpm as int;
            &&& (a <= b ==> a <= r <= b)
            &&& (b <= a ==> b <= r <= a)
        }),
{
    let den = hi.measured_duty - lo.measured_duty;
    let a = lo.expected_rpm as int;
    let b = hi.expected_rpm as int;
    if den != 0 {
        let n = if den > 0 { raw_duty - lo.measured_duty } else { lo.measured_duty - raw_duty };
        let d = if den > 0 { den } else { -den };
        if 0 < n < d {
            let q = (2 * a * d + 2 * n * (b - a) + d) / (2 * d);
            assert(2 * a * d + 2 * n * (b - a) + d == 2 * d * a + (2 * n * (b - a) + d))
                by (nonlinear_arith);
            if a <= b {
                assert(a <= q <= b) by (nonlinear_arith)
                    requires
                        q == (2 * d * a + (2 * n * (b - a) + d)) / (2 * d),
                        0 < n < d,
                        a <= b,
                {
                    assert(2 * n * (b - a) + d >= 0);
                    assert(2 * n * (b - a) + d < 2 * d * (b - a) + 2 * d);
                }
            } else {
                assert(b <= q <= a) by (nonlinear_arith)
                    requires
                        q == (2 * d * a + (2 * n * (b - a) + d)) / (2 * d),
                        0 < n < d,
                        b < a,
                {
                    assert(2 * n * (b - a) + d > 2 * d * (b - a));
                    assert(2 * n * (b - a) + d < 2 * d);
                }
            }
        }
    }
}

/// A table of ideal points: the RPMs rise by `CAL_STEP_RPM` from the first
/// point, and each measured duty is the linear duty of its RPM (truncated).
pub open spec fn ideal_points(points: Seq<CalibrationPoint>, count: int) -> bool {
    forall|k: int|
        0 <= k < count ==> (#[trigger] points[k]).expected_rpm == points[0].expected_rpm + k
            * CAL_STEP_RPM && points[k].measured_duty == points[k].expected_rpm * 10000
            / (CARVERA_SPINDLE_MAX_RPM as int)
}

/// Floor facts of the ideal duty `d = r * 10000 / F`.
proof fn lemma_ideal_duty_floor(r: int)
    requires
        0 <= r,
    ensures
        (r * 10000 / (CARVERA_SPINDLE_MAX_RPM as int)) * 20437 <= r * 10000,
        r * 10000 < (r * 10000 / (CARVERA_SPINDLE_MAX_RPM as int)) * 20437 + 20437,
{
    assert(CARVERA_SPINDLE_MAX_RPM == 20437);
}

/// Ideal duties strictly increase along an ideal table.
proof fn lemma_ideal_duty_increasing(points: Seq<CalibrationPoint>, count: int, i: int, j: int)
    requires
        ideal_points(points, count),
        0 <= i < j < count,
    ensures
        points[i].measured_duty < points[j].measured_duty,
{
    let ri = points[i].expected_rpm as int;
    let rj = points[j].expected_rpm as int;
    assert(points[i].expected_rpm == points[0].expected_rpm + i * CAL_STEP_RPM);
    assert(points[j].expected_rpm == points[0].expected_rpm + j * CAL_STEP_RPM);
    assert(rj >= ri + 50) by (nonlinear_arith)
        requires
            ri == points[0].expected_rpm + i * 50,
            rj == points[0].expected_rpm + j * 50,
            i < j,
    ;
    lemma_ideal_duty_floor(ri);
    lemma_ideal_duty_floor(rj);
}

/// In a table of ideal points, the bracket chosen for a raw duty between
/// the first and the last point's duty contains that duty; and the duty of
/// each point maps back to exactly that point's RPM.
pub proof fn lemma_ideal_table_exact(m: StoreModel, raw_duty: int, i: int)
    requires
        !m.recording,
        1 <= m.count <= CAL_STEPS,
        m.points.len() == CAL_STEPS,
        ideal_points(m.points, m.count as int),
    ensures
        (m.count >= 2 && m.points[0].measured_duty <= raw_duty <= m.points[m.count - 1].measured_duty)
            ==> ({
            let lo = bracket_index_spec(raw_duty, m.points[0].expected_rpm as int, m.count as int);
            &&& 0 <= lo < m.count - 1
            &&& m.points[lo].measured_duty <= raw_duty <= m.points[lo + 1].measured_duty
        }),
        0 <= i < m.count ==> m.interpolate_rpm(m.points[i].measured_duty as int) == Some(
            m.points[i].expected_rpm as int,
        ),
{
    assert(CARVERA_SPINDLE_MAX_RPM == 20437);
    let c = m.count as int;
    let r0 = m.points[0].expected_rpm as int;
    if c >= 2 && m.points[0].measured_duty <= raw_duty <= m.points[c - 1].measured_duty {
        lemma_ideal_bracket(m, raw_duty);
    }
    if 0 <= i < c && c >= 2 {
        let raw = m.points[i].measured_duty as int;
        if i > 0 {
            lemma_ideal_duty_increasing(m.points, c, 0, i);
        }
        if i < c - 1 {
            lemma_ideal_duty_increasing(m.points, c, i, c - 1);
        }
        lemma_ideal_bracket(m, raw);
        let lo = bracket_index_spec(raw, r0, c);
        if i < lo {
            lemma_ideal_duty_increasing(m.points, c, i, lo);
        }
        if i > lo + 1 {
            lemma_ideal_duty_increasing(m.points, c, lo + 1, i);
        }
        lemma_ideal_duty_increasing(m.points, c, lo, lo + 1);
        assert(i == lo || i == lo + 1);
    }
}

proof fn lemma_ideal_bracket(m: StoreModel, raw_duty: int)
    requires
        2 <= m.count <= CAL_STEPS,
        m.points.len() == CAL_STEPS,
        ideal_points(m.points, m.count as int),
        m.points[0].measured_duty <= raw_duty <= m.points[m.count - 1].measured_duty,
    ensures
        ({
            let lo = bracket_index_spec(raw_duty, m.points[0].expected_rpm as int, m.count as int);
            &&& 0 <= lo < m.count - 1
            &&& m.points[lo].measured_duty <= raw_duty <= m.points[lo + 1].measured_duty
        }),
{
    assert(CARVERA_SPINDLE_MAX_RPM == 20437);
    let c = m.count as int;
    let r0 = m.points[0].expected_rpm as int;
    let num = raw_duty * 20437 - r0 * 10000;
    let q = if num < 0 { 0 } else { num / 500000 };
    let lo = bracket_index_spec(raw_duty, r0, c);
    assert(lo == if q < c - 2 { q } else { c - 2 });
    let rlo = m.points[lo].expected_rpm as int;
    let rhi = m.points[lo + 1].expected_rpm as int;
    assert(m.points[lo].expected_rpm == r0 + lo * CAL_STEP_RPM);
    assert(m.points[lo + 1].expected_rpm == r0 + (lo + 1) * CAL_STEP_RPM);
    lemma_ideal_duty_floor(rlo);
    lemma_ideal_duty_floor(rhi);
    if num >= 0 {
        assert(500000 * q <= num < 500000 * q + 500000) by (nonlinear_arith)
            requires
                q == num / 500000,
                num >= 0,
        ;
        // lo <= q: the lower point's RPM is at most the approximate RPM
        assert(rlo * 10000 <= raw_duty * 20437) by (nonlinear_arith)
            requires
                rlo == r0 + lo * 50,
                lo <= q,
                500000 * q <= raw_duty * 20437 - r0 * 10000,
        ;
    }
    let dlo = m.points[lo].measured_duty as int;
    let dhi = m.points[lo + 1].measured_duty as int;
    if num >= 0 {
        assert(dlo <= raw_duty) by (nonlinear_arith)
            requires
                dlo * 20437 <= rlo * 10000,
                rlo * 10000 <= raw_duty * 20437,
        ;
    }
    if lo == q {
        assert(raw_duty * 20437 < rhi * 10000) by (nonlinear_arith)
            requires
                rhi == r0 + (q + 1) * 50,
                num < 0 ==> q == 0,
                num >= 0 ==> num < 500000 * q + 500000,
                num == raw_duty * 20437 - r0 * 10000,
        ;
        assert(raw_duty <= dhi) by (nonlinear_arith)
            requires
                raw_duty * 20437 < rhi * 10000,
                rhi * 10000 < dhi * 20437 + 20437,
        ;
    }
}

impl StoreModel {
    /// The true RPM for a raw duty, when calibration applies.
    pub open spec fn interpolate_rpm(self, raw_duty: int) -> Option<int> {
        if self.recording || self.count == 0 {
            None
        } else if self.count == 1 {
            Some(self.points[0].expected_rpm as int)
        } else {
            let lo = bracket_index_spec(raw_duty, self.points[0].expected_rpm as int, self.count as int);
            Some(interpolate_spec(raw_duty, self.points[lo], self.points[lo + 1]))
        }
    }
}

/// Ideal duty (0-10000, rounded) for a spindle RPM by the linear formula.
pub open spec fn ideal_duty_spec(rpm: int) -> int {
    (rpm * 10000 + CARVERA_SPINDLE_MAX_RPM / 2) / (CARVERA_SPINDLE_MAX_RPM as int)
}

/// Spindle RPM (rounded) for a duty by the linear formula.
pub open spec fn linear_rpm_spec(duty: int) -> int {
    (duty * CARVERA_SPINDLE_MAX_RPM + 5000) / 10000
}

impl CalibrationStore {
    #[verifier::type_invariant]
    closed spec fn inv(&self) -> bool {
        self.count <= CAL_STEPS
    }

    /// A store without calibration data and without bypass, every point
    /// slot zeroed.
    pub fn new() -> (s: Self)
        ensures
            s@.count == 0,
            !s@.recording,
            s@.points.len() == CAL_STEPS,
            s@.points == Seq::new(CAL_STEPS as nat, |i: int| zero_point()),
    {
        let t = empty_calibration_table();
        assert(t.points@ =~= Seq::new(CAL_STEPS as nat, |i: int| zero_point()));
        CalibrationStore { points: t.points, count: 0, recording: false }
    }

    /// Set or clear the recording bypass.
    pub fn set_recording(&mut self, recording: bool)
        ensures
            final(self)@ == (StoreModel { recording, ..old(self)@ }),
    {
        proof {
            use_type_invariant(&*self);
        }
        self.recording = recording;
    }

    /// Whether the recording bypass is set.
    pub fn is_recording(&self) -> (r: bool)
        ensures
            r == self@.recording,
    {
        self.recording
    }
}

/// Store a calibration table: its first `count` points become the active
/// calibration.
pub fn apply_calibration(store: &mut CalibrationStore, table: &CalibrationTable)
    requires
        table.count <= CAL_STEPS,
    ensures
        final(store)@ == old(store)@.with_table(table.points@, table.count),
{
    proof {
        use_type_invariant(&*store);
    }
    let n = table.count as usize;
    let mut points = store.points;
    let mut i: usize = 0;
    while i < n
        invariant
            n == table.count,
            n <= CAL_STEPS,
            i <= n,
            points@.len() == CAL_STEPS,
            forall|j: int| 0 <= j < i ==> #[trigger] points@[j] == table.points@[j],
            forall|j: int| i <= j < CAL_STEPS ==> #[trigger] points@[j] == store.points@[j],
        decreases n - i,
    {
        points[i] = table.points[i];
        i = i + 1;
    }
    assert(points@ =~= old(store)@.with_table(table.points@, table.count).points);
    *store = CalibrationStore { points, count: table.count, recording: store.recording };
}

/// Read a calibration point.
pub fn get_calibration_point(store: &CalibrationStore, index: usize) -> (p: Option<CalibrationPoint>)
    ensures
        p == store@.point(index as int),
        store@.points.len() == CAL_STEPS,
        store@.count <= CAL_STEPS,
{
    proof {
        use_type_invariant(store);
    }
    if index >= store.count as usize {
        return None;
    }
    Some(store.points[index])
}

/// Check if calibration data is loaded.
pub fn has_calibration(store: &CalibrationStore) -> (r: bool)
    ensures
        r == (store@.count > 0),
        store@.points.len() == CAL_STEPS,
        store@.count <= CAL_STEPS,
{
    proof {
        use_type_invariant(store);
    }
    store.count > 0
}

/// Get the number of calibration points.
pub fn calibration_count(store: &CalibrationStore) -> (n: u16)
    ensures
        n == store@.count,
        n <= CAL_STEPS,
        store@.points.len() == CAL_STEPS,
{
    proof {
        use_type_invariant(store);
    }
    store.count
}

/// Clear all runtime calibration data by resetting the point count to zero.
pub fn clear_calibration(store: &mut CalibrationStore)
    ensures
        final(store)@ == (StoreModel { count: 0, ..old(store)@ }),
{
    store.count = 0;
}

/// Read the current calibration table back; `None` without calibration data.
/// Slots beyond the count are zero.
pub fn read_calibration_table(store: &CalibrationStore) -> (t: Option<CalibrationTable>)
    ensures
        t is Some <==> store@.table_read() is Some,
        t matches Some(table) ==> table.count == store@.count && table.count <= CAL_STEPS
            && Some(table.points@) == store@.table_read(),
{
    proof {
        use_type_invariant(store);
    }
    let count = store.count;
    if count == 0 {
        return None;
    }
    let mut table = empty_calibration_table();
    table.count = count;
    let n = count as usize;
    let mut i: usize = 0;
    while i < n
        invariant
            n == count,
            n <= CAL_STEPS,
            i <= n,
            table.count == count,
            store.points@.len() == CAL_STEPS,
            forall|j: int| 0 <= j < i ==> #[trigger] table.points@[j] == store.points@[j],
            forall|j: int| i <= j < CAL_STEPS ==> #[trigger] table.points@[j] == (CalibrationPoint {
                expected_rpm: 0,
                measured_duty: 0,
            }),
        decreases n - i,
    {
        table.points[i] = store.points[i];
        i = i + 1;
    }
    assert(table.points@ =~= zero_padded(store@.points, count as int));
    Some(table)
}

fn interpolate_between(raw_duty: u16, lo: CalibrationPoint, hi: CalibrationPoint) -> (rpm: u32)
    ensures
        rpm == interpolate_spec(raw_duty as int, lo, hi),
        rpm <= 65535,
{
    let lo_rpm = lo.expected_rpm as i64;
    let hi_rpm = hi.expected_rpm as i64;
    let den = hi.measured_duty as i64 - lo.measured_duty as i64;
    if den == 0 {
        return lo.expected_rpm as u32;
    }
    let (n, d) = if den > 0 {
        (raw_duty as i64 - lo.measured_duty as i64, den)
    } else {
        (lo.measured_duty as i64 - raw_duty as i64, -den)
    };
    if n <= 0 {
        return lo.expected_rpm as u32;
    }
    if n >= d {
        return hi.expected_rpm as u32;
    }
    proof {
        assert(0 < n < d <= 65535);
        assert(0 <= lo_rpm <= 65535 && 0 <= hi_rpm <= 65535);
        assert(2 * lo_rpm * d <= 2 * 65535 * 65535) by (nonlinear_arith)
            requires
                0 <= lo_rpm <= 65535,
                0 < d <= 65535,
        ;
        assert(-(2 * 65535 * 65535) <= 2 * n * (hi_rpm - lo_rpm) <= 2 * 65535 * 65535)
            by (nonlinear_arith)
            requires
                0 < n <= 65535,
                -65535 <= hi_rpm - lo_rpm <= 65535,
        ;
    }
    let num = 2 * lo_rpm * d + 2 * n * (hi_rpm - lo_rpm) + d;
    proof {
        // the interpolated value lies between the two bracket RPMs
        assert(num >= 0) by (nonlinear_arith)
            requires
                num == 2 * lo_rpm * d + 2 * n * (hi_rpm - lo_rpm) + d,
                0 < n < d,
                lo_rpm >= 0,
                hi_rpm >= 0,
        ;
        assert(num <= 2 * 65535 * d + d) by (nonlinear_arith)
            requires
                num == 2 * lo_rpm * d + 2 * n * (hi_rpm - lo_rpm) + d,
                0 < n < d,
                0 <= lo_rpm <= 65535,
                0 <= hi_rpm <= 65535,
        ;
        assert((num as int) / (2 * d as int) <= 65535) by (nonlinear_arith)
            requires
                0 <= num <= 2 * 65535 * d + d,
                d > 0,
        ;
    }
    (num / (2 * d)) as u32
}

/// Interpolate the calibration table to find the true RPM for a raw measured duty.
///
/// `None` if there is no calibration data or correction is bypassed.
/// 1. Approximate RPM from the raw duty by the standard Carvera formula
/// 2. Use it to index directly into the evenly spaced table (O(1))
/// 3. Interpolate within that bracket, clamped (no extrapolation)
fn interpolate_rpm(store: &CalibrationStore, raw_duty: u16) -> (r: Option<u32>)
    ensures
        r matches Some(v) ==> store@.interpolate_rpm(raw_duty as int) == Some(v as int) && v <= 65535,
        r is None ==> store@.interpolate_rpm(raw_duty as int) is None,
{
    proof {
        use_type_invariant(store);
    }
    if store.recording {
        return None;
    }
    let count = store.count as usize;
    if count < 2 {
        if count == 1 {
            return Some(store.points[0].expected_rpm as u32);
        }
        return None;
    }
    assert(CARVERA_SPINDLE_MAX_RPM == 20437);
    let first_rpm = store.points[0].expected_rpm as u64;
    let scaled = raw_duty as u64 * CARVERA_SPINDLE_MAX_RPM as u64;
    let offset = first_rpm * 10000;
    let idx: u64 = if scaled < offset {
        0
    } else {
        (scaled - offset) / (CAL_STEP_RPM as u64 * 10000)
    };
    let lo_idx: usize = if idx < (count - 2) as u64 {
        idx as usize
    } else {
        count - 2
    };
    let hi_idx = lo_idx + 1;
    Some(interpolate_between(raw_duty, store.points[lo_idx], store.points[hi_idx]))
}

/// Map a raw measured duty (0-10000) to the corrected duty that Carvera
/// should have sent for the true RPM at that operating point.
///
/// Returns 0 for duties below `OFF_THRESHOLD` (spindle off) and passes
/// the input through unchanged when calibration does not apply.
pub fn correct_duty(store: &CalibrationStore, raw_duty: u16) -> (duty: u16)
    ensures
        duty == (if raw_duty < OFF_THRESHOLD {
            0
        } else {
            match store@.interpolate_rpm(raw_duty as int) {
                Some(rpm) => ideal_duty_spec(rpm),
                None => raw_duty as int,
            }
        }),
{
    if raw_duty < OFF_THRESHOLD {
        return 0;
    }
    match interpolate_rpm(store, raw_duty) {
        Some(true_rpm) => {
            assert(CARVERA_SPINDLE_MAX_RPM == 20437);
            let x: u32 = true_rpm * 10000 + CARVERA_SPINDLE_MAX_RPM / 2;
            assert(x / 20437 <= 32068) by (nonlinear_arith)
                requires
                    x <= 655360218,
            ;
            (x / CARVERA_SPINDLE_MAX_RPM) as u16
        },
        None => raw_duty,
    }
}

/// Calibrated spindle RPM for a raw duty: the interpolated RPM, or the
/// linear formula when calibration does not apply.
pub open spec fn calibrated_rpm_spec(store: StoreModel, raw_duty: int) -> int {
    match store.interpolate_rpm(raw_duty) {
        Some(r) => r,
        None => linear_rpm_spec(raw_duty),
    }
}

/// Convert a raw measured duty (0-10000) directly to calibrated spindle RPM;
/// without calibration, the linear formula `raw_duty * MAX_RPM / 10000`, rounded.
pub fn duty_to_calibrated_rpm(store: &CalibrationStore, raw_duty: u16) -> (rpm: u32)
    ensures
        rpm == calibrated_rpm_spec(store@, raw_duty as int),
        rpm <= 133934,
{
    match interpolate_rpm(store, raw_duty) {
        Some(true_rpm) => true_rpm,
        None => {
            assert(CARVERA_SPINDLE_MAX_RPM == 20437);
            (raw_duty as u32 * CARVERA_SPINDLE_MAX_RPM + 5000) / 10000
        },
    }
}

} // verus!
