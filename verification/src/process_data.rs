//! The signal pipeline: snapshots to rates, rates to a normalised vector.

use crate::clock::duration_nanos;
use crate::rate::{
    lemma_normalized_keeps_nonpositive, lemma_peak_bounds, normalized, peak, rates, NormalizedVector,
    RateVector, Ratios, NANOS_PER_SEC,
};
use crate::MAX_SYSCALLS;
use std::time::Duration;
use vstd::prelude::*;
use vstd::slice::slice_to_vec;

verus! {

/// One stage of the pipeline: it takes a value, may update its own state, and
/// hands the transformed value on.
pub trait DataProcessor<IN, OUT> {
    /// The inputs that `process` takes in the current state.
    spec fn accepts(&self, data: IN) -> bool;

    fn process(&mut self, data: IN) -> (out: OUT)
        requires
            old(self).accepts(data),
    ;
}

/// What a `Differentiator` is to its callers: the sampling interval and the
/// snapshot that the next one is measured against.
pub struct DiffState {
    /// The sampling interval in nanoseconds. Rates are counted per second,
    /// so the sampling frequency is `NANOS_PER_SEC / interval`.
    pub interval: int,
    pub baseline: Seq<u64>,
}

impl DiffState {
    /// The state of a differentiator that has seen no snapshot yet: the
    /// baseline is all zeros.
    pub open spec fn fresh(interval: int) -> DiffState {
        DiffState { interval, baseline: Seq::new(MAX_SYSCALLS as nat, |i: int| 0u64) }
    }

    /// The rates that `data` gives in this state.
    pub open spec fn output(self, data: Seq<u64>) -> Ratios {
        rates(self.baseline, data, self.interval)
    }

    /// The state after `data`: it is the new baseline.
    pub open spec fn fed(self, data: Seq<u64>) -> DiffState {
        DiffState { interval: self.interval, baseline: data }
    }
}

/// Turns consecutive snapshots into rates. It remembers the last snapshot it
/// was given; before the first one that memory is all zeros, so the first
/// rates are the absolute counts over one interval.
pub struct Differentiator {
    interval_nanos: u128,
    prev: Vec<u64>,
}

impl View for Differentiator {
    type V = DiffState;

    closed spec fn view(&self) -> DiffState {
        DiffState { interval: self.interval_nanos as int, baseline: self.prev@ }
    }
}

impl Differentiator {
    /// A differentiator for snapshots that are taken `polling_rate` apart.
    pub fn new(polling_rate: &Duration) -> (d: Self)
        ensures
            d@ == DiffState::fresh(duration_nanos(*polling_rate) as int),
    {
        let d = Differentiator {
            interval_nanos: polling_rate.as_nanos(),
            prev: vec![0u64; MAX_SYSCALLS as usize],
        };
        assert(d.prev@ =~= Seq::new(MAX_SYSCALLS as nat, |i: int| 0u64));
        d
    }

    /// The width of the widest snapshot that `process` takes next.
    pub fn width(&self) -> (n: usize)
        ensures
            n == self@.baseline.len(),
    {
        self.prev.len()
    }
}

impl<'a> DataProcessor<&'a [u64], RateVector> for Differentiator {
    /// A snapshot may not be wider than the one before it.
    open spec fn accepts(&self, data: &'a [u64]) -> bool {
        data@.len() <= self@.baseline.len()
    }

    /// The rate of every counter since the previous snapshot, which `data`
    /// then replaces, whether or not anything changed. A counter that went
    /// down gives a negative rate.
    fn process(&mut self, data: &'a [u64]) -> (out: RateVector)
        ensures
            out@ == old(self)@.output(data@),
            final(self)@ == old(self)@.fed(data@),
    {
        let n = data.len();
        let mut numer: Vec<i128> = Vec::new();
        let mut i: usize = 0;
        while i < n
            invariant
                i <= n,
                n == data@.len(),
                n <= self.prev@.len(),
                numer@.len() == i,
                forall|j: int|
                    0 <= j < i ==> numer@[j] as int == (data@[j] - self.prev@[j]) * NANOS_PER_SEC,
            decreases n - i,
        {
            let delta: i128 = data[i] as i128 - self.prev[i] as i128;
            numer.push(delta * NANOS_PER_SEC);
            i += 1;
        }
        let out = RateVector { numer, denom: self.interval_nanos };
        assert(out@.numer =~= rates(self.prev@, data@, self.interval_nanos as int).numer);
        self.prev = slice_to_vec(data);
        out
    }
}

/// Scales a rate vector by its largest entry.
pub struct Normalizer;

impl<'a> DataProcessor<&'a RateVector, NormalizedVector> for Normalizer {
    open spec fn accepts(&self, data: &'a RateVector) -> bool {
        true
    }

    /// Every rate divided by the largest of them, so that the largest becomes
    /// one. Where no rate is positive the vector comes back as it is: rates
    /// that are all zero or negative are not scaled.
    fn process(&mut self, data: &'a RateVector) -> (out: NormalizedVector)
        ensures
            out@ == normalized(data@),
    {
        let n = data.numer.len();
        let mut max: i128 = 0;
        let mut i: usize = 0;
        while i < n
            invariant
                i <= n,
                n == data.numer@.len(),
                max >= 0,
                max as int == peak(data@.numer.take(i as int)),
            decreases n - i,
        {
            proof {
                assert(data@.numer.take(i + 1).drop_last() =~= data@.numer.take(i as int));
            }
            if data.numer[i] > max {
                max = data.numer[i];
            }
            i += 1;
        }
        proof {
            assert(data@.numer.take(n as int) =~= data@.numer);
        }
        let numer = data.numer.clone();
        let out = if max == 0 {
            RateVector { numer, denom: data.denom }
        } else {
            RateVector { numer, denom: max as u128 }
        };
        assert(out@.numer =~= data@.numer);
        out
    }
}

/// Between two consecutive snapshots `a` and `b`, the rate of every counter
/// is its increase from `a` to `b` times the sampling frequency
/// `NANOS_PER_SEC / interval`, whatever came before `a`; and `b` is what the
/// next snapshot is measured against.
pub proof fn lemma_rates_between(s: DiffState, a: Seq<u64>, b: Seq<u64>)
    requires
        a.len() <= s.baseline.len(),
        b.len() <= a.len(),
    ensures
        s.fed(a).output(b).denom == s.interval,
        s.fed(a).output(b).numer.len() == b.len(),
        forall|i: int|
            0 <= i < b.len() ==> s.fed(a).output(b).numer[i] == (b[i] - a[i]) * NANOS_PER_SEC,
        s.fed(a).fed(b).baseline == b,
{
}

/// The first rates of a differentiator are the counts themselves times the
/// sampling frequency: the baseline it starts from is all zeros.
pub proof fn lemma_first_rates(interval: int, a: Seq<u64>)
    requires
        a.len() <= MAX_SYSCALLS,
    ensures
        forall|i: int|
            0 <= i < a.len() ==> DiffState::fresh(interval).output(a).numer[i] == a[i]
                * NANOS_PER_SEC,
{
}

/// Where exactly one counter rose between two snapshots, its normalised
/// rate is one and every other is zero.
pub proof fn lemma_single_riser(s: DiffState, b: Seq<u64>, k: int)
    requires
        b.len() <= s.baseline.len(),
        0 <= k < b.len(),
        b[k] > s.baseline[k],
        forall|i: int| 0 <= i < b.len() && i != k ==> b[i] == s.baseline[i],
    ensures
        normalized(s.output(b)).numer[k] == normalized(s.output(b)).denom,
        normalized(s.output(b)).denom == (b[k] - s.baseline[k]) * NANOS_PER_SEC,
        forall|i: int| 0 <= i < b.len() && i != k ==> normalized(s.output(b)).numer[i] == 0,
{
    let numer = s.output(b).numer;
    lemma_peak_bounds(numer);
    assert(numer[k] > 0);
    assert(numer[k] <= peak(numer));
    let j = choose|j: int| 0 <= j < numer.len() && numer[j] == peak(numer);
    assert(j == k) by {
        if j != k {
            assert(numer[j] == 0);
        }
    }
}

/// Where no counter rose between two snapshots, the normalised rates are the
/// rates themselves: a counter that fell keeps its negative rate.
pub proof fn lemma_no_riser(s: DiffState, b: Seq<u64>)
    requires
        b.len() <= s.baseline.len(),
        forall|i: int| 0 <= i < b.len() ==> b[i] <= s.baseline[i],
    ensures
        normalized(s.output(b)) == s.output(b),
{
    let v = s.output(b);
    assert forall|i: int| 0 <= i < v.numer.len() implies v.numer[i] <= 0 by {
        let d = b[i] - s.baseline[i];
        assert(d * NANOS_PER_SEC <= 0) by (nonlinear_arith)
            requires
                d <= 0,
        ;
    }
    lemma_normalized_keeps_nonpositive(v);
}

} // verus!
