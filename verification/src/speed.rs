//! Period-based speed measurement functions (T-Method).
//!
//! Measures spindle speed from the time between pulses rather than by
//! frequency counting, which gives much higher resolution at lower speeds.
use vstd::prelude::*;
use vstd::relations::{sorted_by, total_ordering};
use vstd::seq_lib::{lemma_multiset_commutative, lemma_sorted_unique};

verus! {

/// Number of leading values the median looks at.
pub const MEDIAN_WINDOW: usize = 16;

/// The ordering the median sorts by.
pub open spec fn u32_leq() -> spec_fn(u32, u32) -> bool {
    |a: u32, b: u32| a <= b
}

/// The values the median is taken of: the first 16 (or fewer).
pub open spec fn median_window(values: Seq<u32>) -> Seq<u32> {
    values.take(if values.len() < MEDIAN_WINDOW { values.len() as int } else { MEDIAN_WINDOW as int })
}

/// The window sorted ascending.
pub open spec fn sorted_window(values: Seq<u32>) -> Seq<u32> {
    median_window(values).sort_by(u32_leq())
}

/// Sum of the two middle values of an even-sized window.
pub open spec fn middle_pair_sum(values: Seq<u32>) -> int {
    let s = sorted_window(values);
    let mid = (s.len() / 2) as int;
    s[mid - 1] + s[mid]
}

/// The median of the window: the middle value, or the truncated mean of the
/// two middle values for an even count; 0 for no values.
pub open spec fn median_spec(values: Seq<u32>) -> int {
    let s = sorted_window(values);
    let n = s.len();
    if values.len() == 0 {
        0
    } else if n % 2 == 0 {
        middle_pair_sum(values) / 2
    } else {
        s[(n / 2) as int] as int
    }
}

proof fn lemma_u32_leq_total()
    ensures
        total_ordering(u32_leq()),
{
}

proof fn lemma_pair_swap_multiset(x: u32, y: u32)
    ensures
        seq![x, y].to_multiset() =~= seq![y, x].to_multiset(),
{
    broadcast use vstd::seq_lib::group_to_multiset_ensures;
    broadcast use vstd::multiset::group_multiset_axioms;

    assert(seq![x, y] =~= seq![x].push(y));
    assert(seq![y, x] =~= seq![y].push(x));
    assert(seq![x] =~= Seq::<u32>::empty().push(x));
    assert(seq![y] =~= Seq::<u32>::empty().push(y));
}

proof fn lemma_swap_adjacent_multiset(s: Seq<u32>, k: int)
    requires
        0 <= k,
        k + 1 < s.len(),
    ensures
        s.update(k, s[k + 1]).update(k + 1, s[k]).to_multiset() =~= s.to_multiset(),
{
    let t = s.update(k, s[k + 1]).update(k + 1, s[k]);
    let a = s.subrange(0, k);
    let b = s.subrange(k + 2, s.len() as int);
    assert(s =~= a + seq![s[k], s[k + 1]] + b);
    assert(t =~= a + seq![s[k + 1], s[k]] + b);
    lemma_multiset_commutative(a + seq![s[k], s[k + 1]], b);
    lemma_multiset_commutative(a + seq![s[k + 1], s[k]], b);
    lemma_multiset_commutative(a, seq![s[k], s[k + 1]]);
    lemma_multiset_commutative(a, seq![s[k + 1], s[k]]);
    lemma_pair_swap_multiset(s[k], s[k + 1]);
}

/// Every value of the sorted window is one of the input values.
proof fn lemma_sorted_window_from_values(values: Seq<u32>, k: int)
    requires
        0 <= k < sorted_window(values).len(),
    ensures
        values.contains(sorted_window(values)[k]),
{
    let w = median_window(values);
    lemma_u32_leq_total();
    w.lemma_sort_by_ensures(u32_leq());
    let x = sorted_window(values)[k];
    assert(sorted_window(values).contains(x));
    let j = choose|j: int| 0 <= j < w.len() && w[j] == x;
    assert(values[j] == x);
}

/// The sorted window is as long as the window.
proof fn lemma_sorted_window_len(values: Seq<u32>)
    ensures
        sorted_window(values).len() == median_window(values).len(),
{
    broadcast use vstd::seq_lib::group_to_multiset_ensures;

    let w = median_window(values);
    lemma_u32_leq_total();
    w.lemma_sort_by_ensures(u32_leq());
    assert(w.to_multiset().len() == w.sort_by(u32_leq()).to_multiset().len());
}

/// When every value is below `bound`, so is the median.
pub proof fn lemma_median_below(values: Seq<u32>, bound: int)
    requires
        0 < bound,
        forall|i: int| 0 <= i < values.len() ==> values[i] < bound,
    ensures
        median_spec(values) < bound,
{
    lemma_sorted_window_len(values);
    let s = sorted_window(values);
    let n = s.len();
    if values.len() > 0 {
        assert(n > 0);
        let mid = (n / 2) as int;
        lemma_sorted_window_from_values(values, mid);
        assert(s[mid] < bound);
        if n % 2 == 0 {
            lemma_sorted_window_from_values(values, mid - 1);
            assert(s[mid - 1] < bound);
        }
    }
}

/// Calculate median of a slice of u32 values.
///
/// Returns 0 for empty slices. Only the first 16 elements are considered.
/// Median filtering removes impulse noise (spikes) from measurements without
/// introducing extreme values like mean averaging does.
pub fn median_u32(values: &[u32]) -> (m: u32)
    ensures
        m == median_spec(values@),
{
    let len = values.len();
    if len == 0 {
        return 0;
    }
    let n = if len < MEDIAN_WINDOW {
        len
    } else {
        MEDIAN_WINDOW
    };
    let ghost window = median_window(values@);
    let mut sorted = [0u32; 16];
    let mut k: usize = 0;
    while k < n
        invariant
            n <= 16,
            n <= values@.len(),
            k <= n,
            sorted@.len() == 16,
            forall|p: int| 0 <= p < k ==> #[trigger] sorted@[p] == values@[p],
        decreases n - k,
    {
        sorted[k] = values[k];
        k = k + 1;
    }
    assert(sorted@.subrange(0, n as int) =~= window);

    let mut i: usize = 1;
    while i < n
        invariant
            1 <= i <= n || n == 0,
            n <= 16,
            window.len() == n,
            sorted@.len() == 16,
            sorted@.subrange(0, n as int).to_multiset() == window.to_multiset(),
            forall|p: int, q: int| 0 <= p < q < i ==> #[trigger] sorted@[p] <= #[trigger] sorted@[q],
        decreases n - i,
    {
        let mut j = i;
        while j > 0 && sorted[j - 1] > sorted[j]
            invariant
                0 <= j <= i < n,
                n <= 16,
                sorted@.len() == 16,
                window.len() == n,
                sorted@.subrange(0, n as int).to_multiset() == window.to_multiset(),
                forall|p: int, q: int|
                    0 <= p < q <= i && q != j ==> #[trigger] sorted@[p] <= #[trigger] sorted@[q],
            decreases j,
        {
            proof {
                let s0 = sorted@.subrange(0, n as int);
                lemma_swap_adjacent_multiset(s0, (j - 1) as int);
                assert(s0.update((j - 1) as int, s0[j as int]).update(j as int, s0[j - 1])
                    =~= sorted@.update((j - 1) as int, sorted@[j as int]).update(
                    j as int,
                    sorted@[j - 1],
                ).subrange(0, n as int));
            }
            let a = sorted[j - 1];
            let b = sorted[j];
            sorted[j - 1] = b;
            sorted[j] = a;
            j = j - 1;
        }
        proof {
            assert forall|p: int, q: int| 0 <= p < q < i + 1 implies #[trigger] sorted@[p]
                <= #[trigger] sorted@[q] by {
                if q == j && p < j {
                    assert(sorted@[p] <= sorted@[j - 1]);
                }
            }
        }
        i = i + 1;
    }
    proof {
        let s = sorted@.subrange(0, n as int);
        lemma_u32_leq_total();
        window.lemma_sort_by_ensures(u32_leq());
        assert(sorted_by(s, u32_leq())) by {
            assert forall|p: int, q: int| 0 <= p < q < s.len() implies #[trigger] (u32_leq())(
                s[p],
                s[q],
            ) by {
                assert(sorted@[p] <= sorted@[q]);
            }
        }
        lemma_sorted_unique(s, window.sort_by(u32_leq()), u32_leq());
        assert(s =~= sorted_window(values@));
    }
    let mid = n / 2;
    if n % 2 == 0 {
        // The two middle values are summed in u64, so any pair averages.
        ((sorted[mid - 1] as u64 + sorted[mid] as u64) / 2) as u32
    } else {
        sorted[mid]
    }
}

/// Calculate frequency (in millihertz) from a period in microseconds; 0 for a zero period.
pub fn period_us_to_frequency_mhz(period_us: u32) -> (f: u32)
    ensures
        f == (if period_us == 0 {
            0
        } else {
            1_000_000_000int / (period_us as int)
        }),
{
    if period_us == 0 {
        return 0;
    }
    1_000_000_000 / period_us
}

/// The RPM for a median period and pulse count: 60_000_000 / (period * ppr), rounded.
pub open spec fn rpm_from_period_spec(period_us: int, pulses_per_rev: int) -> int {
    (60_000_000 + (period_us * pulses_per_rev) / 2) / (period_us * pulses_per_rev)
}

/// RPM for a set of period measurements, or 0 without usable measurements.
pub open spec fn periods_to_rpm_spec(periods: Seq<u32>, pulses_per_rev: u32) -> int {
    if periods.len() == 0 || pulses_per_rev == 0 || median_spec(periods) == 0 {
        0
    } else {
        rpm_from_period_spec(median_spec(periods), pulses_per_rev as int)
    }
}

/// The computation of `periods_to_rpm` stays within `u32`.
pub open spec fn periods_in_range(periods: Seq<u32>, pulses_per_rev: u32) -> bool {
    (periods.len() > 0 && pulses_per_rev > 0) ==> (median_spec(periods)
        * pulses_per_rev <= u32::MAX)
}

/// Calculate RPM from period measurements using median filtering (T-Method).
///
/// The median (not the mean) of the periods rejects impulse noise: up to half
/// of the samples can be corrupted and the result is still correct.
pub fn periods_to_rpm(periods: &[u32], pulses_per_rev: u32) -> (rpm: u32)
    requires
        periods_in_range(periods@, pulses_per_rev),
    ensures
        rpm == periods_to_rpm_spec(periods@, pulses_per_rev),
{
    if periods.len() == 0 || pulses_per_rev == 0 {
        return 0;
    }
    let median_period_us = median_u32(periods);
    if median_period_us == 0 {
        return 0;
    }
    let divisor = median_period_us * pulses_per_rev;
    assert(divisor >= 1) by (nonlinear_arith)
        requires
            divisor == median_period_us * pulses_per_rev,
            median_period_us >= 1,
            pulses_per_rev >= 1,
    ;
    (60_000_000 + divisor / 2) / divisor
}

/// Whether `period_us` corresponds to a speed within [min_rpm, max_rpm].
pub open spec fn valid_period_spec(period_us: u32, min_rpm: u32, max_rpm: u32, pulses_per_rev: u32) -> bool {
    if period_us == 0 || pulses_per_rev == 0 || min_rpm == 0 || max_rpm == 0 {
        false
    } else {
        let min_period = 60_000_000int / (max_rpm * pulses_per_rev);
        let max_period = 60_000_000int / (min_rpm * pulses_per_rev);
        min_period <= period_us <= max_period
    }
}

/// Validate that a period measurement is within the expected range.
pub fn is_valid_period(period_us: u32, min_rpm: u32, max_rpm: u32, pulses_per_rev: u32) -> (valid: bool)
    requires
        max_rpm * pulses_per_rev <= u32::MAX,
        min_rpm * pulses_per_rev <= u32::MAX,
    ensures
        valid == valid_period_spec(period_us, min_rpm, max_rpm, pulses_per_rev),
{
    if period_us == 0 || pulses_per_rev == 0 || min_rpm == 0 || max_rpm == 0 {
        return false;
    }
    assert(max_rpm * pulses_per_rev >= 1) by (nonlinear_arith)
        requires
            max_rpm >= 1,
            pulses_per_rev >= 1,
    ;
    assert(min_rpm * pulses_per_rev >= 1) by (nonlinear_arith)
        requires
            min_rpm >= 1,
            pulses_per_rev >= 1,
    ;
    let min_period = 60_000_000 / (max_rpm * pulses_per_rev);
    let max_period = 60_000_000 / (min_rpm * pulses_per_rev);
    period_us >= min_period && period_us <= max_period
}

} // verus!
