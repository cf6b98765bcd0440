//! Exact rate vectors.
//!
//! A rate is a count divided by a time, and a normalised rate is a rate
//! divided by a rate. Both are kept as fractions: every vector holds one
//! signed numerator per syscall and a single denominator shared by all of
//! them, so nothing is rounded before a consumer asks for it.

use vstd::prelude::*;

verus! {

/// Nanoseconds in one second: a difference of counts times this, over the
/// sampling interval in nanoseconds, is a rate in calls per second.
pub const NANOS_PER_SEC: i128 = 1_000_000_000;

/// The mathematical content of a vector of fractions: entry `i` stands for
/// `numer[i] / denom`.
#[verifier::ext_equal]
pub struct Ratios {
    pub numer: Seq<int>,
    pub denom: int,
}

impl Ratios {
    /// The fractions are defined: the shared denominator is positive.
    pub open spec fn wf(self) -> bool {
        self.denom > 0
    }

    /// Every entry multiplied by the fraction `p / q`.
    pub open spec fn scaled(self, p: int, q: int) -> Ratios {
        Ratios { numer: Seq::new(self.numer.len(), |i: int| p * self.numer[i]), denom: q * self.denom }
    }

    /// Entry by entry, the two vectors stand for the same rational numbers
    /// (compared by cross-multiplication, so no division is involved).
    pub open spec fn same_values(self, other: Ratios) -> bool {
        &&& self.numer.len() == other.numer.len()
        &&& forall|i: int|
            0 <= i < self.numer.len() ==> #[trigger] self.numer[i] * other.denom == other.numer[i]
                * self.denom
    }
}

/// The largest entry of `s`, or zero where no entry is positive.
pub open spec fn peak(s: Seq<int>) -> int
    decreases s.len(),
{
    if s.len() == 0 {
        0
    } else {
        let rest = peak(s.drop_last());
        if s.last() > rest {
            s.last()
        } else {
            rest
        }
    }
}

/// `v` divided by its largest entry; `v` itself where no entry is positive.
///
/// With `m / d` the largest entry, `(n / d) / (m / d)` is `n / m`: the
/// numerators stay and the largest of them becomes the denominator.
pub open spec fn normalized(v: Ratios) -> Ratios {
    let m = peak(v.numer);
    if m == 0 {
        v
    } else {
        Ratios { numer: v.numer, denom: m }
    }
}

/// The rates between two snapshots taken `interval_nanos` apart: entry `i` is
/// `(next[i] - prev[i]) * NANOS_PER_SEC / interval_nanos` calls per second.
pub open spec fn rates(prev: Seq<u64>, next: Seq<u64>, interval_nanos: int) -> Ratios {
    Ratios {
        numer: Seq::new(next.len(), |i: int| (next[i] - prev[i]) * NANOS_PER_SEC),
        denom: interval_nanos,
    }
}

/// A vector of fractions with one shared denominator: entry `i` is
/// `numer[i] / denom`. A zero denominator marks a vector whose entries are
/// undefined (rates over an empty interval).
#[derive(Debug)]
pub struct RateVector {
    pub numer: Vec<i128>,
    pub denom: u128,
}

/// A rate vector divided by its largest entry.
pub type NormalizedVector = RateVector;

impl View for RateVector {
    type V = Ratios;

    open spec fn view(&self) -> Ratios {
        Ratios {
            numer: Seq::new(self.numer@.len(), |i: int| self.numer@[i] as int),
            denom: self.denom as int,
        }
    }
}

/// `peak` is never negative, bounds every entry, and is zero or one of the
/// entries.
pub proof fn lemma_peak_bounds(s: Seq<int>)
    ensures
        peak(s) >= 0,
        forall|i: int| 0 <= i < s.len() ==> s[i] <= peak(s),
        peak(s) == 0 || exists|i: int| 0 <= i < s.len() && s[i] == peak(s),
    decreases s.len(),
{
    if s.len() > 0 {
        let init = s.drop_last();
        lemma_peak_bounds(init);
        assert forall|i: int| 0 <= i < s.len() implies s[i] <= peak(s) by {
            if i < s.len() - 1 {
                assert(init[i] == s[i]);
            }
        }
        if peak(s) != 0 {
            if s.last() > peak(init) {
                assert(s[s.len() - 1] == peak(s));
            } else {
                let j = choose|j: int| 0 <= j < init.len() && init[j] == peak(init);
                assert(s[j] == peak(s));
            }
        }
    }
}

/// `peak` is zero exactly where no entry is positive.
pub proof fn lemma_peak_zero(s: Seq<int>)
    ensures
        peak(s) == 0 <==> forall|i: int| 0 <= i < s.len() ==> s[i] <= 0,
{
    lemma_peak_bounds(s);
}

/// Multiplying every entry by a positive number multiplies `peak` by it.
pub proof fn lemma_peak_scales(s: Seq<int>, p: int)
    requires
        p > 0,
    ensures
        peak(Seq::new(s.len(), |i: int| p * s[i])) == p * peak(s),
    decreases s.len(),
{
    let t = Seq::new(s.len(), |i: int| p * s[i]);
    if s.len() > 0 {
        let init = s.drop_last();
        lemma_peak_scales(init, p);
        assert(t.drop_last() =~= Seq::new(init.len(), |i: int| p * init[i]));
        let a = s.last();
        let b = peak(init);
        assert(t.last() == p * a);
        assert(a > b ==> p * a > p * b) by (nonlinear_arith)
            requires
                p > 0,
        ;
        assert(a <= b ==> p * a <= p * b) by (nonlinear_arith)
            requires
                p > 0,
        ;
    } else {
        assert(p * 0 == 0);
    }
}

/// Normalising does not depend on the unit of the rates: a vector and the
/// same vector with every entry multiplied by a positive fraction `p / q`
/// normalise to the same values, provided that some entry is positive.
pub proof fn lemma_normalized_scale_invariant(v: Ratios, p: int, q: int)
    requires
        v.wf(),
        p > 0,
        q > 0,
        peak(v.numer) > 0,
    ensures
        v.scaled(p, q).wf(),
        normalized(v.scaled(p, q)).wf(),
        normalized(v).wf(),
        normalized(v.scaled(p, q)).same_values(normalized(v)),
{
    let m = peak(v.numer);
    let w = v.scaled(p, q);
    lemma_peak_scales(v.numer, p);
    assert(q * v.denom > 0) by (nonlinear_arith)
        requires
            q > 0,
            v.denom > 0,
    ;
    assert(p * m > 0) by (nonlinear_arith)
        requires
            p > 0,
            m > 0,
    ;
    assert(peak(w.numer) == p * m);
    let a = normalized(w);
    let b = normalized(v);
    assert forall|i: int| 0 <= i < a.numer.len() implies #[trigger] a.numer[i] * b.denom
        == b.numer[i] * a.denom by {
        let n = v.numer[i];
        assert((p * n) * m == n * (p * m)) by (nonlinear_arith);
    }
}

/// A vector without a positive entry, be it all zeros or all negative, is
/// its own normal form.
pub proof fn lemma_normalized_keeps_nonpositive(v: Ratios)
    requires
        forall|i: int| 0 <= i < v.numer.len() ==> v.numer[i] <= 0,
    ensures
        normalized(v) == v,
{
    lemma_peak_zero(v.numer);
}

/// Where some entry is positive, no entry of the normal form is above one,
/// and the largest is one.
pub proof fn lemma_normalized_at_most_one(v: Ratios)
    requires
        peak(v.numer) > 0,
    ensures
        normalized(v).wf(),
        normalized(v).numer.len() == v.numer.len(),
        forall|i: int| 0 <= i < v.numer.len() ==> normalized(v).numer[i] <= normalized(v).denom,
        exists|k: int| 0 <= k < v.numer.len() && normalized(v).numer[k] == normalized(v).denom,
{
    lemma_peak_bounds(v.numer);
}

/// Where entry `k` is the largest and positive, entry `i` of the normal form
/// is entry `i` divided by entry `k`. The quotient of `a / d` by `b / d` is
/// `(a * d) / (d * b)`; the two sides are compared by cross-multiplication.
pub proof fn lemma_normalized_is_quotient(v: Ratios, k: int, i: int)
    requires
        v.wf(),
        0 <= k < v.numer.len(),
        0 <= i < v.numer.len(),
        v.numer[k] == peak(v.numer),
        v.numer[k] > 0,
    ensures
        normalized(v).numer[i] * (v.denom * v.numer[k]) == (v.numer[i] * v.denom) * normalized(
            v,
        ).denom,
{
    let n = v.numer[i];
    let d = v.denom;
    let m = v.numer[k];
    assert(n * (d * m) == (n * d) * m) by (nonlinear_arith);
}

} // verus!
