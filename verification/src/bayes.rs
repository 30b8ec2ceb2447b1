//! The online Bayesian estimator: a posterior over the six hidden levels,
//! updated after every draw, and a decision rule that recommends the
//! posterior-mode guess together with its exact expected score.
//!
//! The posterior is held as six integer weights: the belief that the hidden
//! level is `i` is `p[i] / total`. A Bayes update multiplies each weight by
//! the Bernoulli likelihood numerator of the observed outcome — `i` after a
//! win, `5 - i` after a loss — which keeps the bookkeeping exact; the
//! normalization stays implicit in the total.

use crate::fortune::LotResult;
use crate::fortune::lemma_prefix_total_monotone;
use crate::fortune::prefix_total;
use crate::fortune::total_weight;
use crate::game::FortuneGameParameters;
use vstd::prelude::*;

verus! {

/// An exact expected score: the rational `num / den`.
#[derive(Debug, Copy, Clone)]
pub struct Expectation {
    pub num: i128,
    pub den: u64,
}

/// The Bernoulli likelihood of outcome `r` under hidden level `i`, as the
/// numerator over the common denominator 5: level `i` wins with probability
/// `i / 5` and loses with probability `(5 - i) / 5`.
pub open spec fn likelihood(r: LotResult, i: int) -> int {
    match r {
        LotResult::Win => i,
        LotResult::Lose => 5 - i,
    }
}

/// The sum of the first `k` weights of `s` after scaling each by the
/// likelihood of `r`: the unnormalized posterior mass after one update.
pub open spec fn weighted_total(s: Seq<u64>, r: LotResult, k: int) -> int
    decreases k,
{
    if k <= 0 {
        0
    } else {
        weighted_total(s, r, k - 1) + s[k - 1] * likelihood(r, k - 1)
    }
}

proof fn lemma_mul_nonneg(a: int, b: int)
    by (nonlinear_arith)
    requires
        a >= 0,
        b >= 0,
    ensures
        a * b >= 0,
{
}

proof fn lemma_mul_mag(a: int, b: int, amax: int, bmag: int)
    by (nonlinear_arith)
    requires
        0 <= a,
        a <= amax,
        -bmag <= b,
        b <= bmag,
    ensures
        a * b <= amax * bmag,
        -(amax * bmag) <= a * b,
{
}

proof fn lemma_weighted_total_monotone(s: Seq<u64>, r: LotResult, i: int, j: int)
    requires
        s.len() == 6,
        0 <= i <= j,
        j <= 6,
    ensures
        weighted_total(s, r, i) <= weighted_total(s, r, j),
    decreases j,
{
    if i < j {
        lemma_weighted_total_monotone(s, r, i, j - 1);
        lemma_mul_nonneg(s[j - 1] as int, likelihood(r, j - 1));
    }
}

/// Each scaled weight is bounded by the whole unnormalized posterior mass.
proof fn lemma_weighted_term_bound(s: Seq<u64>, r: LotResult, k: int)
    requires
        s.len() == 6,
        0 <= k < 6,
    ensures
        0 <= s[k] * likelihood(r, k),
        s[k] * likelihood(r, k) <= weighted_total(s, r, 6),
{
    lemma_mul_nonneg(s[k] as int, likelihood(r, k));
    lemma_weighted_total_monotone(s, r, 0, k);
    lemma_weighted_total_monotone(s, r, k + 1, 6);
    assert(weighted_total(s, r, k + 1) == weighted_total(s, r, k) + s[k] * likelihood(r, k));
}

/// A prefix sum of the updated weights equals the same prefix of the
/// likelihood-scaled old weights.
proof fn lemma_updated_prefix(qs: Seq<u64>, s: Seq<u64>, r: LotResult, k: int)
    requires
        qs.len() == 6,
        s.len() == 6,
        0 <= k <= 6,
        forall|i: int| 0 <= i < 6 ==> qs[i] == s[i] * likelihood(r, i),
    ensures
        prefix_total(qs, k) == weighted_total(s, r, k),
    decreases k,
{
    if k > 0 {
        lemma_updated_prefix(qs, s, r, k - 1);
    }
}

proof fn lemma_prefix_le(a: Seq<u64>, b: Seq<u64>, k: int)
    requires
        a.len() == b.len(),
        0 <= k <= a.len(),
        forall|i: int| 0 <= i < k ==> a[i] <= b[i],
    ensures
        prefix_total(a, k) <= prefix_total(b, k),
    decreases k,
{
    if k > 0 {
        lemma_prefix_le(a, b, k - 1);
    }
}

/// `m` is the index of the greatest weight, ties broken toward the first.
pub open spec fn is_first_max(s: Seq<u64>, m: int) -> bool {
    &&& 0 <= m < s.len()
    &&& forall|j: int| 0 <= j < s.len() ==> s[j] <= s[m]
    &&& forall|j: int| 0 <= j < m ==> s[j] < s[m]
}

/// The expected-score numerator of guessing level `m`, over the denominator
/// `total_weight(s)`: the guess earns `win` on the mass that sits on `m` and
/// `lose` on all the rest.
pub open spec fn gain_num(s: Seq<u64>, m: int, win: int, lose: int) -> int {
    s[m] * win + (total_weight(s) - s[m]) * lose
}

/// The Bayesian estimator: posterior weights over the six hidden levels.
pub struct Bayes1 {
    /// Posterior weights; the belief in level `i` is `p[i] / total`.
    pub p: [u64; 6],
}

impl Bayes1 {
    /// A posterior must carry positive total mass — otherwise normalization
    /// is undefined — and its exact total must stay representable.
    pub open spec fn wf(&self) -> bool {
        1 <= total_weight(self.p@) <= u64::MAX
    }

    /// The uniform belief: equal mass `1/6` on each level.
    pub fn uniform() -> (b: Bayes1)
        ensures
            b.p@ == seq![1u64, 1u64, 1u64, 1u64, 1u64, 1u64],
            b.wf(),
    {
        let p: [u64; 6] = [1, 1, 1, 1, 1, 1];
        proof {
            assert(p@ =~= seq![1u64, 1u64, 1u64, 1u64, 1u64, 1u64]);
            assert(prefix_total(p@, 0) == 0);
            assert(prefix_total(p@, 1) == 1);
            assert(prefix_total(p@, 2) == 2);
            assert(prefix_total(p@, 3) == 3);
            assert(prefix_total(p@, 4) == 4);
            assert(prefix_total(p@, 5) == 5);
            assert(total_weight(p@) == 6);
        }
        Bayes1 { p }
    }

    /// One Bayes update for the observed outcome: every weight is multiplied
    /// by its level's likelihood of that outcome, exactly. An update that
    /// would leave zero total mass — a win when all mass sits on level 0, or
    /// a loss when all mass sits on level 5 — has no defined posterior and is
    /// excluded by the precondition, as is an update whose exact total would
    /// no longer be representable.
    pub fn new_draw(&mut self, r: LotResult)
        requires
            old(self).wf(),
            1 <= weighted_total(old(self).p@, r, 6),
            weighted_total(old(self).p@, r, 6) <= u64::MAX,
        ensures
            forall|i: int|
                0 <= i < 6 ==> final(self).p@[i] == old(self).p@[i] * likelihood(r, i),
            total_weight(final(self).p@) == weighted_total(old(self).p@, r, 6),
            final(self).wf(),
    {
        proof {
            lemma_weighted_term_bound(self.p@, r, 0);
            lemma_weighted_term_bound(self.p@, r, 1);
            lemma_weighted_term_bound(self.p@, r, 2);
            lemma_weighted_term_bound(self.p@, r, 3);
            lemma_weighted_term_bound(self.p@, r, 4);
            lemma_weighted_term_bound(self.p@, r, 5);
        }
        let q: [u64; 6] = if r == LotResult::Win {
            [
                self.p[0] * 0,
                self.p[1] * 1,
                self.p[2] * 2,
                self.p[3] * 3,
                self.p[4] * 4,
                self.p[5] * 5,
            ]
        } else {
            [
                self.p[0] * 5,
                self.p[1] * 4,
                self.p[2] * 3,
                self.p[3] * 2,
                self.p[4] * 1,
                self.p[5] * 0,
            ]
        };
        proof {
            assert(forall|i: int|
                0 <= i < 6 ==> q@[i] == self.p@[i] * likelihood(r, i));
            lemma_updated_prefix(q@, self.p@, r, 6);
        }
        self.p = q;
    }

    /// The exact unnormalized mass the posterior would carry after one
    /// update for `r`. A driver checks it before calling `new_draw`: zero
    /// means the update has no defined posterior, and a value beyond
    /// `u64::MAX` means the exact weights must be rescaled first.
    pub fn posterior_mass(&self, r: LotResult) -> (mass: u128)
        ensures
            mass == weighted_total(self.p@, r, 6),
    {
        let mut acc: u128 = 0;
        let mut k: usize = 0;
        while k < 6
            invariant
                k <= 6,
                acc == weighted_total(self.p@, r, k as int),
                acc <= k * 5 * 0xffff_ffff_ffff_ffff,
            decreases 6 - k,
        {
            let like: u64 = match r {
                LotResult::Win => k as u64,
                LotResult::Lose => 5 - k as u64,
            };
            proof {
                assert(like == likelihood(r, k as int));
                lemma_mul_mag(self.p@[k as int] as int, like as int, u64::MAX as int, 5);
                lemma_mul_nonneg(self.p@[k as int] as int, like as int);
            }
            acc = acc + (self.p[k] as u128) * (like as u128);
            k = k + 1;
        }
        acc
    }

    /// Halve every weight, rounding down: the rescaling a driver applies
    /// when the exact weights have grown too large for the next update. The
    /// represented posterior changes only by the rounding, which this
    /// contract states exactly. Some weight must be at least 2, so that mass
    /// survives.
    pub fn halve(&mut self)
        requires
            old(self).wf(),
            exists|i: int| 0 <= i < 6 && old(self).p@[i] >= 2,
        ensures
            forall|i: int| 0 <= i < 6 ==> final(self).p@[i] == old(self).p@[i] / 2,
            final(self).wf(),
    {
        let q: [u64; 6] = [
            self.p[0] / 2,
            self.p[1] / 2,
            self.p[2] / 2,
            self.p[3] / 2,
            self.p[4] / 2,
            self.p[5] / 2,
        ];
        proof {
            let w = choose|i: int| 0 <= i < 6 && old(self).p@[i] >= 2;
            assert(q@[w] >= 1);
            assert(forall|i: int| 0 <= i < 6 ==> q@[i] <= self.p@[i]);
            lemma_prefix_le(q@, self.p@, 6);
            lemma_prefix_total_monotone(q@, 0, w);
            lemma_prefix_total_monotone(q@, w + 1, 6);
            assert(prefix_total(q@, w + 1) == prefix_total(q@, w) + q@[w]);
        }
        self.p = q;
    }

    /// The decision rule: the guess with the greatest posterior mass (first
    /// index on ties) and the exact expected score of submitting it, as the
    /// rational `num / den`.
    pub fn submit_expect(&self, params: FortuneGameParameters) -> (r: (usize, Expectation))
        requires
            self.wf(),
        ensures
            is_first_max(self.p@, r.0 as int),
            r.1.den == total_weight(self.p@),
            1 <= r.1.den,
            r.1.num == gain_num(
                self.p@,
                r.0 as int,
                params.win_point as int,
                params.lose_point as int,
            ),
    {
        let mut m: usize = 0;
        let mut i: usize = 1;
        while i < 6
            invariant
                1 <= i <= 6,
                m < i,
                forall|j: int| 0 <= j < i ==> self.p@[j] <= self.p@[m as int],
                forall|j: int| 0 <= j < m ==> self.p@[j] < self.p@[m as int],
            decreases 6 - i,
        {
            if self.p[i] > self.p[m] {
                m = i;
            }
            i = i + 1;
        }
        let mut t: u64 = 0;
        let mut k: usize = 0;
        while k < 6
            invariant
                k <= 6,
                self.wf(),
                t == prefix_total(self.p@, k as int),
            decreases 6 - k,
        {
            proof {
                lemma_prefix_total_monotone(self.p@, k + 1 as int, 6);
            }
            t = t + self.p[k];
            k = k + 1;
        }
        proof {
            lemma_prefix_total_monotone(self.p@, 0, m as int);
            lemma_prefix_total_monotone(self.p@, m as int + 1, 6);
            assert(prefix_total(self.p@, m as int + 1) == prefix_total(self.p@, m as int)
                + self.p@[m as int]);
        }
        let pm: u64 = self.p[m];
        let rest: u64 = t - pm;
        proof {
            let pmi = pm as int;
            let resti = rest as int;
            let w = params.win_point as int;
            let l = params.lose_point as int;
            let half: int = 0x8000_0000_0000_0000;
            lemma_mul_mag(pmi, w, u64::MAX as int, half);
            lemma_mul_mag(resti, l, u64::MAX as int, half);
            lemma_mul_mag(pmi, w, pmi, half);
            lemma_mul_mag(resti, l, resti, half);
        }
        let num: i128 = (pm as i128) * (params.win_point as i128) + (rest as i128) * (
        params.lose_point as i128);
        (m, Expectation { num, den: t })
    }
}

/// The posterior invariant: under well-formedness every weight is
/// non-negative and the total mass is positive, so the normalized masses are
/// non-negative and sum to exactly one.
pub proof fn lemma_posterior_invariant(b: Bayes1)
    requires
        b.wf(),
    ensures
        total_weight(b.p@) >= 1,
        forall|i: int| 0 <= i < 6 ==> b.p@[i] >= 0,
{
}

/// A first maximum is unique: two indices that both satisfy `is_first_max`
/// coincide.
pub proof fn lemma_first_max_unique(s: Seq<u64>, m1: int, m2: int)
    requires
        is_first_max(s, m1),
        is_first_max(s, m2),
    ensures
        m1 == m2,
{
    if m1 < m2 {
        assert(s[m1] < s[m2]);
        assert(s[m2] <= s[m1]);
    } else if m2 < m1 {
        assert(s[m2] < s[m1]);
        assert(s[m1] <= s[m2]);
    }
}

/// With all posterior mass on the top level, the best guess is the top level
/// and its expected score is exactly `win`: the gain numerator equals the
/// denominator times `win`.
pub proof fn lemma_certain_top_gain(b: Bayes1, win: int, lose: int)
    requires
        b.wf(),
        forall|i: int| 0 <= i < 5 ==> b.p@[i] == 0,
    ensures
        is_first_max(b.p@, 5),
        gain_num(b.p@, 5, win, lose) == total_weight(b.p@) * win,
{
    let s = b.p@;
    assert(prefix_total(s, 0) == 0);
    assert(prefix_total(s, 1) == prefix_total(s, 0) + s[0]);
    assert(prefix_total(s, 2) == prefix_total(s, 1) + s[1]);
    assert(prefix_total(s, 3) == prefix_total(s, 2) + s[2]);
    assert(prefix_total(s, 4) == prefix_total(s, 3) + s[3]);
    assert(prefix_total(s, 5) == prefix_total(s, 4) + s[4]);
    assert(total_weight(s) == prefix_total(s, 5) + s[5]);
    assert(total_weight(s) == s[5]);
}

} // verus!
