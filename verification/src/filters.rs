//! Signal filtering utilities: a fixed-capacity ring buffer for measurements.
use vstd::prelude::*;
use vstd::arithmetic::div_mod::{lemma_fundamental_div_mod, lemma_fundamental_div_mod_converse, lemma_small_mod};
use vstd::arithmetic::mul::lemma_mul_is_commutative;
use vstd::slice::slice_subrange;

verus! {

/// Fixed-capacity circular buffer for measurement values.
///
/// FIFO storage with automatic wraparound: once full, each push overwrites
/// the oldest value.
pub struct CircularBuffer<const N: usize> {
    buffer: [u32; N],
    index: usize,
    count: usize,
}

/// The abstract state of a [`CircularBuffer`].
pub struct RingModel {
    /// All N slots in storage order.
    pub slots: Seq<u32>,
    /// Next slot to write.
    pub index: int,
    /// Number of valid values.
    pub count: int,
}

impl RingModel {
    /// The valid values in storage order (oldest first until the buffer wraps).
    pub open spec fn valid(self) -> Seq<u32> {
        if self.count < self.slots.len() {
            self.slots.take(self.count)
        } else {
            self.slots
        }
    }

    /// The state after pushing `value`.
    pub open spec fn pushed(self, value: u32) -> RingModel {
        RingModel {
            slots: self.slots.update(self.index, value),
            index: (self.index + 1) % (self.slots.len() as int),
            count: if self.count < self.slots.len() { self.count + 1 } else { self.count },
        }
    }
}

impl<const N: usize> View for CircularBuffer<N> {
    type V = RingModel;

    closed spec fn view(&self) -> RingModel {
        RingModel { slots: self.buffer@, index: self.index as int, count: self.count as int }
    }
}

impl<const N: usize> CircularBuffer<N> {
    #[verifier::type_invariant]
    closed spec fn inv(&self) -> bool {
        &&& self.count <= N
        &&& (N > 0 ==> self.index < N)
        &&& (self.count < N ==> self.index == self.count)
    }

    /// Create a new empty circular buffer.
    pub fn new() -> (b: Self)
        ensures
            b@.slots == Seq::new(N as nat, |i: int| 0u32),
            b@.index == 0,
            b@.count == 0,
    {
        let b = CircularBuffer { buffer: [0u32; N], index: 0, count: 0 };
        assert(b.buffer@ =~= Seq::new(N as nat, |i: int| 0u32));
        b
    }

    /// Push a value into the buffer, overwriting the oldest if full.
    pub fn push(&mut self, value: u32)
        requires
            N > 0,
        ensures
            final(self)@ == old(self)@.pushed(value),
        no_unwind
    {
        proof {
            use_type_invariant(&*self);
        }
        let new_index = (self.index + 1) % N;
        proof {
            if self.index + 1 < N {
                vstd::arithmetic::div_mod::lemma_small_mod((self.index + 1) as nat, N as nat);
            }
        }
        let new_count = if self.count < N {
            self.count + 1
        } else {
            self.count
        };
        let mut buffer = self.buffer;
        buffer[self.index] = value;
        *self = CircularBuffer { buffer, index: new_index, count: new_count };
    }

    /// The valid values as a slice: in storage order, which is oldest to
    /// newest until the buffer wraps.
    pub fn as_slice(&self) -> (s: &[u32])
        ensures
            s@ == self@.valid(),
    {
        proof {
            use_type_invariant(self);
        }
        if self.count < N {
            slice_subrange(self.buffer.as_slice(), 0, self.count)
        } else {
            self.buffer.as_slice()
        }
    }

    /// Get the number of valid values in the buffer.
    pub fn len(&self) -> (n: usize)
        ensures
            n == self@.count,
    {
        self.count
    }

    /// Check if the buffer is empty.
    pub fn is_empty(&self) -> (e: bool)
        ensures
            e == (self@.count == 0),
    {
        self.count == 0
    }

    /// Clear all values from the buffer.
    pub fn clear(&mut self)
        ensures
            final(self)@.slots == Seq::new(N as nat, |i: int| 0u32),
            final(self)@.index == 0,
            final(self)@.count == 0,
    {
        *self = Self::new();
    }
}

impl<const N: usize> Default for CircularBuffer<N> {
    fn default() -> (b: Self)
        ensures
            b@.slots == Seq::new(N as nat, |i: int| 0u32),
            b@.index == 0,
            b@.count == 0,
    {
        Self::new()
    }
}

/// Until it wraps the buffer is a queue: pushing onto a buffer with spare
/// room appends to the valid values; on a full buffer the newest value
/// replaces the oldest and the number of values stays N.
pub proof fn lemma_ring_push(m: RingModel, value: u32)
    requires
        m.slots.len() > 0,
        0 <= m.count <= m.slots.len(),
        0 <= m.index < m.slots.len(),
        m.count < m.slots.len() ==> m.index == m.count,
    ensures
        m.count < m.slots.len() ==> m.pushed(value).valid() == m.valid().push(value),
        m.count == m.slots.len() ==> (m.pushed(value).valid().len() == m.slots.len()
            && m.pushed(value).valid()[m.index] == value),
        m.pushed(value).count == if m.count < m.slots.len() { m.count + 1 } else { m.count },
{
    if m.count < m.slots.len() {
        let n = m.pushed(value);
        if m.count + 1 < m.slots.len() {
            assert(n.valid() =~= m.valid().push(value));
        } else {
            assert(n.valid() =~= m.valid().push(value));
        }
    }
}


/// The buffer of `n` slots after pushing the values of `h` onto a new one.
pub open spec fn pushed_all(n: nat, h: Seq<u32>) -> RingModel
    decreases h.len(),
{
    if h.len() == 0 {
        RingModel { slots: Seq::new(n, |i: int| 0u32), index: 0, count: 0 }
    } else {
        pushed_all(n, h.drop_last()).pushed(h.last())
    }
}

/// Position in the push history of the value held in slot `i` after `k`
/// pushes: the latest push that went to slot `i`.
pub open spec fn slot_source(k: int, n: int, i: int) -> int {
    k - 1 - (k - 1 - i) % n
}

proof fn lemma_mod_of(x: int, d: int, q: int, r: int)
    requires
        d > 0,
        0 <= r < d,
        x == d * q + r,
    ensures
        x % d == r,
        x / d == q,
{
    lemma_mul_is_commutative(d, q);
    lemma_fundamental_div_mod_converse(x, d, q, r);
}

proof fn lemma_slot_source(k: int, n: int, i: int)
    requires
        n > 0,
        0 <= i < n,
        k >= n,
    ensures
        k - n <= slot_source(k, n, i) < k,
        slot_source(k, n, i) % n == i,
{
    lemma_fundamental_div_mod(k - 1 - i, n);
    lemma_mod_of(slot_source(k, n, i), n, (k - 1 - i) / n, i);
}

proof fn lemma_mod_step_down(a: int, n: int)
    requires
        a >= 1,
        n > 0,
        a % n != 0,
    ensures
        (a - 1) % n == a % n - 1,
{
    lemma_fundamental_div_mod(a, n);
    lemma_mod_of(a - 1, n, a / n, a % n - 1);
}

proof fn lemma_mod_step_up(a: int, n: int)
    requires
        a >= 0,
        n > 0,
    ensures
        (a + 1) % n == if a % n + 1 == n { 0 } else { a % n + 1 },
{
    lemma_fundamental_div_mod(a, n);
    assert(n * (a / n + 1) == n * (a / n) + n) by (nonlinear_arith);
    if a % n + 1 == n {
        lemma_mod_of(a + 1, n, a / n + 1, 0);
    } else {
        lemma_mod_of(a + 1, n, a / n, a % n + 1);
    }
}

proof fn lemma_pushed_all_slots(n: nat, h: Seq<u32>)
    requires
        n > 0,
    ensures
        pushed_all(n, h).slots.len() == n,
        pushed_all(n, h).count == if h.len() < n { h.len() as int } else { n as int },
        pushed_all(n, h).index == (h.len() as int) % (n as int),
        forall|i: int|
            0 <= i < n && i < h.len() ==> #[trigger] pushed_all(n, h).slots[i] == h[slot_source(
                h.len() as int,
                n as int,
                i,
            )],
    decreases h.len(),
{
    let k = h.len() as int;
    if k > 0 {
        let p = h.drop_last();
        lemma_pushed_all_slots(n, p);
        let m = pushed_all(n, p);
        let kp = k - 1;
        lemma_mod_step_up(kp, n as int);
        let idx0 = kp % (n as int);
        if idx0 + 1 == n {
            lemma_mod_of(idx0 + 1, n as int, 1, 0);
        } else {
            lemma_small_mod((idx0 + 1) as nat, n as nat);
        }
        assert forall|i: int| 0 <= i < n && i < k implies #[trigger] pushed_all(n, h).slots[i]
            == h[slot_source(k, n as int, i)] by {
            let idx = kp % (n as int);
            if i == idx {
                lemma_fundamental_div_mod(kp, n as int);
                lemma_mod_of(kp - i, n as int, kp / (n as int), 0);
            } else {
                if i >= kp {
                    lemma_small_mod(kp as nat, n as nat);
                }
                assert(i < kp);
                lemma_fundamental_div_mod(kp - i, n as int);
                if (kp - i) % (n as int) == 0 {
                    lemma_mod_of(kp, n as int, (kp - i) / (n as int), i);
                    assert(false);
                }
                lemma_mod_step_down(kp - i, n as int);
                assert(m.slots[i] == p[slot_source(kp, n as int, i)]);
            }
        }
    }
}

/// Pushing values onto a new buffer of `n` slots: until it is full the
/// valid values are exactly the values pushed, in order; after that it
/// holds the last `n` values, the one pushed at position `j` of the
/// history in slot `j % n` (so the oldest value is the one overwritten).
pub proof fn lemma_ring_history(n: nat, h: Seq<u32>)
    requires
        n > 0,
    ensures
        pushed_all(n, h).count == if h.len() < n { h.len() as int } else { n as int },
        h.len() <= n ==> pushed_all(n, h).valid() == h,
        h.len() >= n ==> pushed_all(n, h).valid().len() == n,
        h.len() >= n ==> forall|i: int|
            0 <= i < n ==> #[trigger] pushed_all(n, h).valid()[i] == h[slot_source(
                h.len() as int,
                n as int,
                i,
            )],
        h.len() >= n ==> forall|i: int|
            0 <= i < n ==> h.len() - n <= #[trigger] slot_source(h.len() as int, n as int, i)
                < h.len() && slot_source(h.len() as int, n as int, i) % (n as int) == i,
{
    lemma_pushed_all_slots(n, h);
    let k = h.len() as int;
    let r = pushed_all(n, h);
    if k <= n {
        assert forall|i: int| 0 <= i < k implies #[trigger] r.valid()[i] == h[i] by {
            lemma_small_mod((k - 1 - i) as nat, n as nat);
        }
        assert(r.valid() =~= h);
    }
    if k >= n {
        assert forall|i: int|
            0 <= i < n implies k - n <= #[trigger] slot_source(k, n as int, i) < k && slot_source(
                k,
                n as int,
                i,
            ) % (n as int) == i by {
            lemma_slot_source(k, n as int, i);
        }
    }
}

} // verus!
