//! Baseline power detection for surplus tracking.
//!
//! A sliding window of recent power samples yields the idle (baseline) power
//! as a low percentile of the window; power above the baseline is the surplus
//! attributed to active work.

use vstd::multiset::Multiset;
use vstd::prelude::*;
use crate::types::BaselineDetection;

verus! {

broadcast use {vstd::multiset::group_multiset_axioms, vstd::seq_lib::group_to_multiset_ensures};

/// Non-decreasing order.
pub open spec fn spec_sorted(s: Seq<u64>) -> bool {
    forall|i: int, j: int| 0 <= i < j < s.len() ==> s[i] <= s[j]
}

/// The order the window is sorted by.
pub open spec fn u64_le() -> spec_fn(u64, u64) -> bool {
    |x: u64, y: u64| x <= y
}

/// The sorted permutation of a window.
pub open spec fn spec_sort(s: Seq<u64>) -> Seq<u64> {
    s.sort_by(u64_le())
}

/// `<=` on `u64` is a total ordering.
proof fn lemma_u64_le_total_ordering()
    ensures
        vstd::relations::total_ordering(u64_le()),
{
    let leq = u64_le();
    assert(vstd::relations::reflexive(leq)) by {
        assert(forall|x: u64| #[trigger] leq(x, x));
    }
    assert(vstd::relations::transitive(leq)) by {
        assert(forall|x: u64, y: u64, z: u64| #[trigger] leq(x, y) && #[trigger] leq(y, z) ==> leq(x, z));
    }
    assert(vstd::relations::antisymmetric(leq)) by {
        assert(forall|x: u64, y: u64| #[trigger] leq(x, y) && #[trigger] leq(y, x) ==> x == y);
    }
    assert(vstd::relations::strongly_connected(leq)) by {
        assert(forall|x: u64, y: u64| #[trigger] leq(x, y) || #[trigger] leq(y, x));
    }
}

/// What `sort_by` promises for the window's order.
pub proof fn lemma_spec_sort_ensures(s: Seq<u64>)
    ensures
        spec_sort(s).to_multiset() =~= s.to_multiset(),
        spec_sorted(spec_sort(s)),
        spec_sort(s).len() == s.len(),
{
    lemma_u64_le_total_ordering();
    s.lemma_sort_by_ensures(u64_le());
    let sorted = spec_sort(s);
    assert(vstd::relations::sorted_by(sorted, u64_le()));
    assert forall|i: int, j: int| 0 <= i < j < sorted.len() implies sorted[i] <= sorted[j] by {
        assert(u64_le()(sorted[i], sorted[j]));
    }
    assert(sorted.len() == sorted.to_multiset().len());
    assert(s.len() == s.to_multiset().len());
}

/// A sorted permutation is unique: the sorted order of a window is fully
/// determined by its multiset of samples.
pub proof fn lemma_sorted_unique(a: Seq<u64>, b: Seq<u64>)
    requires
        spec_sorted(a),
        spec_sorted(b),
        a.to_multiset() == b.to_multiset(),
    ensures
        a =~= b,
    decreases a.len(),
{
    assert(a.len() == a.to_multiset().len());
    assert(b.len() == b.to_multiset().len());
    if a.len() > 0 {
        // Both heads equal the least element of the common multiset.
        assert(a.to_multiset().count(a[0]) > 0);
        assert(b.to_multiset().count(a[0]) > 0);
        assert(b.contains(a[0]));
        let ja = choose|j: int| 0 <= j < b.len() && b[j] == a[0];
        assert(b[0] <= a[0]) by {
            if ja > 0 {
                assert(b[0] <= b[ja]);
            }
        }
        assert(a.to_multiset().count(b[0]) > 0);
        assert(a.contains(b[0]));
        let jb = choose|j: int| 0 <= j < a.len() && a[j] == b[0];
        assert(a[0] <= b[0]) by {
            if jb > 0 {
                assert(a[0] <= a[jb]);
            }
        }
        assert(a[0] == b[0]);
        let ta = a.remove(0);
        let tb = b.remove(0);
        assert(ta.to_multiset() =~= a.to_multiset().remove(a[0]));
        assert(tb.to_multiset() =~= b.to_multiset().remove(b[0]));
        assert(ta.to_multiset() == tb.to_multiset());
        assert(spec_sorted(ta)) by {
            assert(forall|i: int, j: int| 0 <= i < j < ta.len() ==> ta[i] == a[i + 1] && ta[j] == a[j + 1]);
        }
        assert(spec_sorted(tb)) by {
            assert(forall|i: int, j: int| 0 <= i < j < tb.len() ==> tb[i] == b[i + 1] && tb[j] == b[j + 1]);
        }
        lemma_sorted_unique(ta, tb);
        assert forall|i: int| 0 <= i < a.len() implies a[i] == b[i] by {
            if i > 0 {
                assert(a[i] == ta[i - 1]);
                assert(b[i] == tb[i - 1]);
            }
        }
    }
}

/// Sort a window of samples into non-decreasing order.
///
/// The result is exactly the sorted permutation of the input.
pub fn sort_window(input: &Vec<u64>) -> (r: Vec<u64>)
    ensures
        r@ == spec_sort(input@),
        spec_sorted(r@),
        r@.to_multiset() == input@.to_multiset(),
        r@.len() == input@.len(),
{
    let mut rest: Vec<u64> = Vec::new();
    let mut i: usize = 0;
    while i < input.len()
        invariant
            0 <= i <= input@.len(),
            rest@ =~= input@.subrange(0, i as int),
        decreases input@.len() - i,
    {
        rest.push(input[i]);
        i = i + 1;
    }
    proof {
        assert(rest@ =~= input@);
    }
    let ghost total = input@.to_multiset();
    let mut out: Vec<u64> = Vec::new();
    while rest.len() > 0
        invariant
            spec_sorted(out@),
            forall|oi: int, ri: int|
                0 <= oi < out@.len() && 0 <= ri < rest@.len() ==> out@[oi] <= rest@[ri],
            out@.to_multiset().add(rest@.to_multiset()) =~= total,
        decreases rest@.len(),
    {
        let mut m: usize = 0;
        let mut k: usize = 1;
        while k < rest.len()
            invariant
                rest@.len() > 0,
                0 <= m < rest@.len(),
                1 <= k <= rest@.len(),
                forall|t: int| 0 <= t < k ==> rest@[m as int] <= rest@[t],
            decreases rest@.len() - k,
        {
            if rest[k] < rest[m] {
                m = k;
            }
            k = k + 1;
        }
        let ghost old_rest = rest@;
        let ghost old_out = out@;
        let x = rest.remove(m);
        proof {
            assert(rest@ =~= old_rest.remove(m as int));
            assert(rest@.to_multiset() =~= old_rest.to_multiset().remove(x));
            assert(forall|ri: int| 0 <= ri < rest@.len() ==> old_rest.contains(#[trigger] rest@[ri]))
                by {
                assert(forall|ri: int|
                    0 <= ri < rest@.len() ==> rest@[ri] == (if ri < m {
                        old_rest[ri]
                    } else {
                        old_rest[ri + 1]
                    }));
            }
            assert(forall|ri: int| 0 <= ri < rest@.len() ==> x <= #[trigger] rest@[ri]) by {
                assert(forall|t: int| 0 <= t < old_rest.len() ==> x <= #[trigger] old_rest[t]);
            }
        }
        out.push(x);
        proof {
            assert(out@ =~= old_out.push(x));
            assert(out@.to_multiset() =~= old_out.to_multiset().insert(x));
            assert(old_rest.to_multiset().count(x) > 0) by {
                assert(old_rest.contains(x));
            }
            assert(out@.to_multiset().add(rest@.to_multiset()) =~= total);
            assert(forall|oi: int| 0 <= oi < old_out.len() ==> #[trigger] old_out[oi] <= x);
            assert(spec_sorted(out@));
        }
    }
    proof {
        assert(rest@.to_multiset() =~= Multiset::<u64>::empty()) by {
            assert(rest@ =~= Seq::<u64>::empty());
        }
        assert(out@.to_multiset() =~= total);
        lemma_spec_sort_ensures(input@);
        lemma_sorted_unique(out@, spec_sort(input@));
    }
    out
}

/// Floor of the square root, defined by counting up.
pub open spec fn spec_isqrt(x: nat) -> nat
    decreases x,
{
    if x == 0 {
        0
    } else {
        let r = spec_isqrt((x - 1) as nat);
        if (r + 1) * (r + 1) <= x {
            r + 1
        } else {
            r
        }
    }
}

/// The floor square root brackets its argument between consecutive squares.
pub proof fn lemma_isqrt_bounds(x: nat)
    ensures
        spec_isqrt(x) * spec_isqrt(x) <= x,
        x < (spec_isqrt(x) + 1) * (spec_isqrt(x) + 1),
    decreases x,
{
    if x > 0 {
        lemma_isqrt_bounds((x - 1) as nat);
        let r = spec_isqrt((x - 1) as nat);
        let s = spec_isqrt(x);
        if (r + 1) * (r + 1) <= x {
            assert(s == r + 1);
            assert(x - 1 < (r + 1) * (r + 1));
            assert(x == (r + 1) * (r + 1));
            assert((r + 1) * (r + 1) < (r + 2) * (r + 2)) by (nonlinear_arith);
            assert(x < (s + 1) * (s + 1));
        } else {
            assert(s == r);
            assert(s * s <= x - 1);
        }
        assert(s * s <= x);
        assert(x < (s + 1) * (s + 1));
        assert(x < ((s + 1) as nat) * ((s + 1) as nat));
    } else {
        let s = spec_isqrt(x);
        assert(s == 0);
        assert((s + 1) * (s + 1) == 1) by (nonlinear_arith)
            requires
                s == 0nat,
        ;
    }
}

/// Only one value lies between consecutive squares around `x`.
pub proof fn lemma_isqrt_unique(x: nat, r: nat)
    requires
        r * r <= x,
        x < (r + 1) * (r + 1),
    ensures
        r == spec_isqrt(x),
{
    lemma_isqrt_bounds(x);
    let s = spec_isqrt(x);
    assert(r < s + 1 && s < r + 1) by (nonlinear_arith)
        requires
            r * r <= x && x < (r + 1) * (r + 1) && s * s <= x && x < (s + 1) * (s + 1),
    ;
}

/// Floor square root by bisection.
pub fn isqrt(x: u128) -> (r: u128)
    requires
        x < 0x1_0000_0000_0000_0000_0000_0000,  // 2^96
    ensures
        r == spec_isqrt(x as nat),
        r * r <= x,
        x < (r + 1) * (r + 1),
{
    if x == 0 {
        proof {
            lemma_isqrt_bounds(0);
        }
        return 0;
    }
    let mut lo: u128 = 0;
    let mut hi: u128 = 0x1_0000_0000_0000;  // 2^48; (2^48)^2 = 2^96 > x
    proof {
        assert(0x1_0000_0000_0000 * 0x1_0000_0000_0000 == 0x1_0000_0000_0000_0000_0000_0000int)
            by (nonlinear_arith);
    }
    while lo + 1 < hi
        invariant
            lo < hi <= 0x1_0000_0000_0000,
            lo * lo <= x,
            x < hi * hi,
        decreases hi - lo,
    {
        let mid = lo + (hi - lo) / 2;
        proof {
            assert(mid * mid < 0x1_0000_0000_0000_0000_0000_0000) by (nonlinear_arith)
                requires
                    mid < 0x1_0000_0000_0000,
            ;
        }
        if mid * mid <= x {
            lo = mid;
        } else {
            hi = mid;
        }
    }
    proof {
        assert(hi == lo + 1);
        lemma_isqrt_unique(x as nat, lo as nat);
    }
    lo
}

/// Sum of a window of samples.
pub open spec fn spec_sum(s: Seq<u64>) -> int
    decreases s.len(),
{
    if s.len() == 0 {
        0
    } else {
        spec_sum(s.drop_last()) + s.last()
    }
}

/// Sum of squared deviations from `mean`.
pub open spec fn spec_sq_dev_sum(s: Seq<u64>, mean: int) -> int
    decreases s.len(),
{
    if s.len() == 0 {
        0
    } else {
        spec_sq_dev_sum(s.drop_last(), mean) + (s.last() - mean) * (s.last() - mean)
    }
}

/// Population standard deviation of a window (floor), in the same unit as
/// the samples.
pub open spec fn spec_stddev(s: Seq<u64>) -> int
    recommends
        s.len() > 0,
{
    let mean = spec_sum(s) / s.len() as int;
    spec_isqrt((spec_sq_dev_sum(s, mean) / s.len() as int) as nat) as int
}

proof fn lemma_sum_bounds(s: Seq<u64>, bound: int)
    requires
        forall|i: int| 0 <= i < s.len() ==> s[i] <= bound,
        bound >= 0,
    ensures
        0 <= spec_sum(s) <= s.len() * bound,
    decreases s.len(),
{
    if s.len() > 0 {
        lemma_sum_bounds(s.drop_last(), bound);
        assert((s.len() - 1) * bound + bound == s.len() * bound) by (nonlinear_arith);
    }
}

/// Detection confidence in per-mille: the window-fill ratio damped by the
/// spread of the samples. `1 / (1 + stddev/100 W)` in milliwatt units is
/// `100000 / (100000 + stddev_mw)`.
pub open spec fn spec_confidence_pm(s: Seq<u64>, capacity: int) -> int
    recommends
        s.len() > 0,
        capacity > 0,
{
    let c = s.len() as int * 100_000_000 / (capacity * (100_000 + spec_stddev(s)));
    if c > 1000 {
        1000
    } else {
        c
    }
}

proof fn lemma_sq_dev_sum_bounds(s: Seq<u64>, mean: int, dev_bound: int)
    requires
        forall|i: int| 0 <= i < s.len() ==> -dev_bound <= #[trigger] s[i] - mean <= dev_bound,
        dev_bound >= 0,
    ensures
        0 <= spec_sq_dev_sum(s, mean) <= s.len() * (dev_bound * dev_bound),
    decreases s.len(),
{
    if s.len() > 0 {
        lemma_sq_dev_sum_bounds(s.drop_last(), mean, dev_bound);
        assert((s.last() - mean) * (s.last() - mean) <= dev_bound * dev_bound) by (nonlinear_arith)
            requires
                -dev_bound <= s.last() - mean <= dev_bound,
        ;
        assert((s.last() - mean) * (s.last() - mean) >= 0) by (nonlinear_arith);
        assert((s.len() - 1) * (dev_bound * dev_bound) + dev_bound * dev_bound == s.len() * (
        dev_bound * dev_bound)) by (nonlinear_arith);
    }
}

/// Power samples above this bound (10 kW, in milliwatts) are outside the
/// domain of a machine power monitor and are rejected at the edge.
pub open spec fn spec_max_sample_mw() -> int {
    10_000_000_000
}

/// Baseline detector: a fixed-capacity sliding window of power samples, an
/// optional manual override, and the last auto-detected value.
pub struct BaselineDetector {
    samples: Vec<u64>,
    max_samples: usize,
    manual_baseline_mw: Option<u64>,
    last_detected_mw: Option<u64>,
}

impl BaselineDetector {
    pub closed spec fn spec_samples(&self) -> Seq<u64> {
        self.samples@
    }

    pub closed spec fn spec_max_samples(&self) -> usize {
        self.max_samples
    }

    pub closed spec fn spec_manual(&self) -> Option<u64> {
        self.manual_baseline_mw
    }

    pub closed spec fn spec_last_detected(&self) -> Option<u64> {
        self.last_detected_mw
    }

    /// The baseline in force: a manual override always wins over detection.
    pub open spec fn spec_baseline(&self) -> Option<u64> {
        if self.spec_manual() is Some {
            self.spec_manual()
        } else {
            self.spec_last_detected()
        }
    }

    /// The window never exceeds its capacity and every sample is a plausible
    /// machine power.
    pub open spec fn wf(&self) -> bool {
        &&& self.spec_samples().len() <= self.spec_max_samples()
        &&& 1 <= self.spec_max_samples() <= 1_000_000
        &&& forall|i: int|
            0 <= i < self.spec_samples().len() ==> self.spec_samples()[i] <= spec_max_sample_mw()
    }

    /// Detector with the default window of 60 samples.
    pub fn new() -> (r: Self)
        ensures
            r.wf(),
            r.spec_samples().len() == 0,
            r.spec_max_samples() == 60,
            r.spec_manual() is None,
            r.spec_last_detected() is None,
    {
        BaselineDetector {
            samples: Vec::new(),
            max_samples: 60,
            manual_baseline_mw: None,
            last_detected_mw: None,
        }
    }

    /// Detector with a custom window capacity. The million-sample cap keeps
    /// the confidence arithmetic within its proven bounds; real windows are
    /// a few minutes of one-second samples.
    pub fn with_window_size(size: usize) -> (r: Self)
        requires
            1 <= size <= 1_000_000,
        ensures
            r.wf(),
            r.spec_samples().len() == 0,
            r.spec_max_samples() == size,
            r.spec_manual() is None,
            r.spec_last_detected() is None,
    {
        BaselineDetector {
            samples: Vec::new(),
            max_samples: size,
            manual_baseline_mw: None,
            last_detected_mw: None,
        }
    }

    /// Add one power sample, evicting the oldest once at capacity.
    pub fn add_sample(&mut self, power_mw: u64)
        requires
            old(self).wf(),
            power_mw <= spec_max_sample_mw(),
        ensures
            final(self).wf(),
            final(self).spec_samples() == (if old(self).spec_samples().len()
                >= old(self).spec_max_samples() {
                old(self).spec_samples().subrange(
                    1,
                    old(self).spec_samples().len() as int,
                ).push(power_mw)
            } else {
                old(self).spec_samples().push(power_mw)
            }),
            final(self).spec_max_samples() == old(self).spec_max_samples(),
            final(self).spec_manual() == old(self).spec_manual(),
            final(self).spec_last_detected() == old(self).spec_last_detected(),
    {
        if self.samples.len() >= self.max_samples {
            self.samples.remove(0);
            proof {
                assert(self.samples@ =~= old(self).spec_samples().subrange(
                    1,
                    old(self).spec_samples().len() as int,
                ));
            }
        }
        self.samples.push(power_mw);
    }

    /// Set a manual baseline, disabling auto-detection.
    pub fn set_manual_baseline(&mut self, power_mw: u64)
        ensures
            final(self).spec_manual() == Some(power_mw),
            final(self).spec_samples() == old(self).spec_samples(),
            final(self).spec_max_samples() == old(self).spec_max_samples(),
            final(self).spec_last_detected() == old(self).spec_last_detected(),
    {
        self.manual_baseline_mw = Some(power_mw);
    }

    /// Clear the manual baseline, re-enabling auto-detection.
    pub fn clear_manual_baseline(&mut self)
        ensures
            final(self).spec_manual() is None,
            final(self).spec_samples() == old(self).spec_samples(),
            final(self).spec_max_samples() == old(self).spec_max_samples(),
            final(self).spec_last_detected() == old(self).spec_last_detected(),
    {
        self.manual_baseline_mw = None;
    }

    /// The baseline in force: the manual override when set, else the last
    /// detected value.
    pub fn get_baseline(&self) -> (r: Option<u64>)
        ensures
            r == self.spec_baseline(),
    {
        match self.manual_baseline_mw {
            Some(v) => Some(v),
            None => self.last_detected_mw,
        }
    }

    /// Whether a manual baseline is in force.
    pub fn is_manual(&self) -> (r: bool)
        ensures
            r == (self.spec_manual() is Some),
    {
        self.manual_baseline_mw.is_some()
    }

    /// Number of samples currently in the window.
    pub fn sample_count(&self) -> (r: usize)
        ensures
            r == self.spec_samples().len(),
    {
        self.samples.len()
    }

    /// Detect the baseline from the current window.
    ///
    /// Needs at least ten samples; the baseline is the 5th percentile of the
    /// sorted window (index `n/20`), which excludes idle dips while rejecting
    /// load spikes. Confidence grows with window fill and shrinks with sample
    /// spread.
    pub fn detect_baseline(&mut self) -> (r: Option<BaselineDetection>)
        requires
            old(self).wf(),
        ensures
            final(self).wf(),
            final(self).spec_samples() == old(self).spec_samples(),
            final(self).spec_max_samples() == old(self).spec_max_samples(),
            final(self).spec_manual() == old(self).spec_manual(),
            r is Some <==> old(self).spec_samples().len() >= 10,
            match r {
                Some(d) => {
                    &&& d.detected_mw == spec_sort(old(self).spec_samples())[old(
                        self,
                    ).spec_samples().len() as int / 20]
                    &&& d.sample_count == old(self).spec_samples().len()
                    &&& d.confidence_pm == spec_confidence_pm(
                        old(self).spec_samples(),
                        old(self).spec_max_samples() as int,
                    )
                    &&& final(self).spec_last_detected() == Some(d.detected_mw)
                },
                None => final(self).spec_last_detected() == old(self).spec_last_detected(),
            },
    {
        let n = self.samples.len();
        if n < 10 {
            return None;
        }
        let sorted = sort_window(&self.samples);
        let index = n / 20;
        proof {
            assert(n / 20 < n);
        }
        let baseline = sorted[index];

        // Mean of the window.
        let mut sum: u64 = 0;
        let mut i: usize = 0;
        while i < n
            invariant
                n == self.spec_samples().len() <= 1_000_000,
                0 <= i <= n,
                forall|k: int|
                    0 <= k < self.spec_samples().len() ==> self.spec_samples()[k]
                        <= spec_max_sample_mw(),
                sum == spec_sum(self.spec_samples().subrange(0, i as int)),
                sum <= i * spec_max_sample_mw(),
            decreases n - i,
        {
            proof {
                assert(self.spec_samples().subrange(0, i + 1).drop_last() =~= self.spec_samples()
                    .subrange(0, i as int));
            }
            sum = sum + self.samples[i];
            i = i + 1;
        }
        proof {
            assert(self.spec_samples().subrange(0, n as int) =~= self.spec_samples());
        }
        let mean: u64 = sum / (n as u64);
        proof {
            vstd::arithmetic::div_mod::lemma_div_is_ordered(
                sum as int,
                n as int * spec_max_sample_mw(),
                n as int,
            );
            assert(n as int * spec_max_sample_mw() / n as int == spec_max_sample_mw())
                by (nonlinear_arith)
                requires
                    n >= 1,
            ;
        }

        // Population variance of the window (in u128: squared milliwatts).
        let mut sq: u128 = 0;
        let mut j: usize = 0;
        while j < n
            invariant
                n == self.spec_samples().len() <= 1_000_000,
                0 <= j <= n,
                forall|k: int|
                    0 <= k < self.spec_samples().len() ==> self.spec_samples()[k]
                        <= spec_max_sample_mw(),
                mean <= spec_max_sample_mw(),
                sq == spec_sq_dev_sum(self.spec_samples().subrange(0, j as int), mean as int),
                sq <= j * (spec_max_sample_mw() * spec_max_sample_mw()),
            decreases n - j,
        {
            proof {
                assert(self.spec_samples().subrange(0, j + 1).drop_last() =~= self.spec_samples()
                    .subrange(0, j as int));
            }
            let x = self.samples[j];
            let diff: u64 = if x >= mean {
                x - mean
            } else {
                mean - x
            };
            proof {
                assert((x - mean) * (x - mean) == (diff as int) * (diff as int))
                    by (nonlinear_arith)
                    requires
                        diff == if x >= mean {
                            (x - mean) as int
                        } else {
                            (mean - x) as int
                        },
                ;
                assert((diff as int) * (diff as int) <= spec_max_sample_mw()
                    * spec_max_sample_mw()) by (nonlinear_arith)
                    requires
                        0 <= diff <= spec_max_sample_mw(),
                ;
                assert(j * (spec_max_sample_mw() * spec_max_sample_mw()) + spec_max_sample_mw()
                    * spec_max_sample_mw() == (j + 1) * (spec_max_sample_mw()
                    * spec_max_sample_mw())) by (nonlinear_arith);
                assert(j * (spec_max_sample_mw() * spec_max_sample_mw()) <= 1_000_000 * (
                spec_max_sample_mw() * spec_max_sample_mw())) by (nonlinear_arith)
                    requires
                        0 <= j <= 1_000_000,
                ;
            }
            let term: u128 = (diff as u128) * (diff as u128);
            sq = sq + term;
            j = j + 1;
        }
        proof {
            assert(self.spec_samples().subrange(0, n as int) =~= self.spec_samples());
            assert(n * (spec_max_sample_mw() * spec_max_sample_mw()) <= 1_000_000 * (
            spec_max_sample_mw() * spec_max_sample_mw())) by (nonlinear_arith)
                requires
                    n <= 1_000_000,
            ;
        }
        let variance: u128 = sq / (n as u128);
        proof {
            vstd::arithmetic::div_mod::lemma_div_is_ordered(
                sq as int,
                1_000_000 * (spec_max_sample_mw() * spec_max_sample_mw()),
                n as int,
            );
            vstd::arithmetic::div_mod::lemma_div_nonincreasing(
                1_000_000 * (spec_max_sample_mw() * spec_max_sample_mw()),
                n as int,
            );
        }
        let stddev: u128 = isqrt(variance);
        proof {
            assert(stddev * stddev <= variance);
            assert(stddev <= 0x4_0000_0000_0000) by (nonlinear_arith)
                requires
                    stddev * stddev <= variance && variance
                        < 0x1_0000_0000_0000_0000_0000_0000int,
            ;
        }

        // Confidence: fill ratio damped by spread, clamped to 1000.
        proof {
            assert(self.spec_max_samples() as int * (100_000 + stddev) <= 1_000_000 * (100_000
                + 0x4_0000_0000_0000int) && self.spec_max_samples() as int * (100_000 + stddev)
                >= 100_000) by (nonlinear_arith)
                requires
                    1 <= self.spec_max_samples() <= 1_000_000 && 0 <= stddev
                        <= 0x4_0000_0000_0000int,
            ;
        }
        let num: u128 = (n as u128) * 100_000_000;
        let den: u128 = (self.max_samples as u128) * (100_000 + stddev);
        let conf_wide: u128 = num / den;
        let confidence_pm: u64 = if conf_wide > 1000 {
            1000
        } else {
            conf_wide as u64
        };

        self.last_detected_mw = Some(baseline);
        Some(
            BaselineDetection {
                detected_mw: baseline,
                sample_count: n,
                confidence_pm,
            },
        )
    }

    /// Surplus power above the baseline: `(max(0, current - baseline),
    /// current > baseline)`; `(0, false)` when no baseline is known.
    pub fn calculate_surplus(&self, current_mw: u64) -> (r: (u64, bool))
        ensures
            match self.spec_baseline() {
                Some(b) => r.0 == (if current_mw > b {
                    current_mw - b
                } else {
                    0int
                }) && r.1 == (current_mw > b),
                None => r.0 == 0 && r.1 == false,
            },
    {
        match self.get_baseline() {
            Some(b) => {
                if current_mw > b {
                    (current_mw - b, true)
                } else {
                    (0, false)
                }
            },
            None => (0, false),
        }
    }

    /// Surplus energy over a window of time, in milliwatt-hours:
    /// the surplus power times the duration.
    pub fn calculate_surplus_mwh(&self, power_mw: u64, duration_ms: u64) -> (r: u64)
        requires
            power_mw <= spec_max_sample_mw(),
            duration_ms <= 3_153_600_000_000,  // one hundred years
        ensures
            r == (match self.spec_baseline() {
                Some(b) => (if power_mw > b {
                    power_mw - b
                } else {
                    0int
                }) * duration_ms / 3_600_000,
                None => 0int,
            }),
    {
        let (surplus_mw, _) = self.calculate_surplus(power_mw);
        proof {
            assert((surplus_mw as int) * (duration_ms as int) <= 10_000_000_000
                * 3_153_600_000_000int) by (nonlinear_arith)
                requires
                    surplus_mw <= 10_000_000_000 && duration_ms <= 3_153_600_000_000,
            ;
            vstd::arithmetic::div_mod::lemma_div_is_ordered(
                (surplus_mw as int) * (duration_ms as int),
                10_000_000_000 * 3_153_600_000_000int,
                3_600_000,
            );
            vstd::arithmetic::div_mod::lemma_div_pos_is_pos(
                (surplus_mw as int) * (duration_ms as int),
                3_600_000,
            );
            assert((surplus_mw as int) * (duration_ms as int) >= 0) by (nonlinear_arith);
        }
        let wide: u128 = (surplus_mw as u128) * (duration_ms as u128) / 3_600_000;
        wide as u64
    }

    /// Clear the window and the last detected value; a manual override stays.
    pub fn reset(&mut self)
        requires
            old(self).wf(),
        ensures
            final(self).wf(),
            final(self).spec_samples().len() == 0,
            final(self).spec_max_samples() == old(self).spec_max_samples(),
            final(self).spec_manual() == old(self).spec_manual(),
            final(self).spec_last_detected() is None,
    {
        self.samples = Vec::new();
        self.last_detected_mw = None;
    }
}

} // verus!
