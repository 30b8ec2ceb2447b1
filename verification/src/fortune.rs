//! Lottery machines: a Bernoulli machine over six discretized win
//! probabilities, a machine that generates such machines from a categorical
//! prior, and a strategy enum that supplies the prior.
//!
//! A win probability is one of the six levels `i/5` for `i` in `0..=5`, held
//! as the level index. A categorical distribution over the six levels is held
//! as six non-negative integer weights: the mass on level `i` is
//! `dist[i] / total`. Weights make every computation exact: the inverse-CDF
//! walk needs no floating-point fallback, because an integer draw below the
//! total always lands in some level's slice.

use crate::randsrc::rand_below;
use vstd::prelude::*;

verus! {

/// The outcome of one lottery draw.
#[derive(Debug, Copy, Clone, Eq, PartialEq, Structural)]
pub enum LotResult {
    Win,
    Lose,
}

/// A lottery machine: each draw is an independent Bernoulli trial that wins
/// with probability `level / 5`.
#[derive(Debug, Copy, Clone)]
pub struct FortuneMachine {
    /// The win probability, as the numerator of `level / 5`.
    pub level: u8,
}

/// The sum of the first `k` weights of `s`.
pub open spec fn prefix_total(s: Seq<u64>, k: int) -> int
    decreases k,
{
    if k <= 0 {
        0
    } else {
        prefix_total(s, k - 1) + s[k - 1]
    }
}

/// The sum of all weights of `s`.
pub open spec fn total_weight(s: Seq<u64>) -> int {
    prefix_total(s, s.len() as int)
}

pub proof fn lemma_prefix_total_monotone(s: Seq<u64>, i: int, j: int)
    requires
        0 <= i <= j <= s.len(),
    ensures
        prefix_total(s, i) <= prefix_total(s, j),
    decreases j,
{
    if i < j {
        lemma_prefix_total_monotone(s, i, j - 1);
    }
}

impl FortuneMachine {
    /// A level index denotes one of the six probabilities `0/5 ..= 5/5`.
    pub open spec fn wf(&self) -> bool {
        self.level <= 5
    }

    pub fn new(level: u8) -> (m: FortuneMachine)
        requires
            level <= 5,
        ensures
            m.level == level,
    {
        FortuneMachine { level }
    }

    /// The outcome determined by a uniform draw `r` below 5: exactly the
    /// `level` draws `0 ..= level - 1` win, so the win probability is
    /// `level / 5`.
    pub open spec fn outcome_at(&self, r: int) -> LotResult {
        if r < self.level {
            LotResult::Win
        } else {
            LotResult::Lose
        }
    }

    /// The deterministic part of a draw: maps the uniform draw `r` to the
    /// outcome.
    pub fn sample_at(&self, r: u64) -> (res: LotResult)
        requires
            r < 5,
        ensures
            res == self.outcome_at(r as int),
    {
        if r < self.level as u64 {
            LotResult::Win
        } else {
            LotResult::Lose
        }
    }

    /// Draw once. Level 5 always wins and level 0 always loses; in between,
    /// the outcome is that of some uniform draw below 5.
    pub fn sample(&self, rng: &mut rand_pcg::Mcg128Xsl64) -> (res: LotResult)
        requires
            self.wf(),
        ensures
            self.level == 5 ==> res == LotResult::Win,
            self.level == 0 ==> res == LotResult::Lose,
            exists|r: int| 0 <= r < 5 && res == self.outcome_at(r),
    {
        let r = rand_below(rng, 5);
        let res = self.sample_at(r);
        proof {
            assert(0 <= (r as int) && (r as int) < 5 && res == self.outcome_at(r as int));
        }
        res
    }
}

/// A machine that generates lottery machines: it samples one of the six
/// levels according to the categorical prior held in `dist`.
#[derive(Debug, Copy, Clone)]
pub struct FFortuneMachine {
    /// Prior weights over the six levels; the mass on level `i` is
    /// `dist[i] / total_weight(dist)`.
    pub dist: [u64; 6],
}

/// The level selected by the inverse-CDF walk for the uniform draw with
/// residual `r` at position `i`: the first level at or after `i` whose weight
/// slice contains `r`, or the last level if the walk runs out.
pub open spec fn pick_from(s: Seq<u64>, r: int, i: int) -> int
    decreases s.len() - i,
{
    if i >= s.len() - 1 {
        s.len() - 1
    } else if r < s[i] {
        i
    } else {
        pick_from(s, r - s[i], i + 1)
    }
}

/// The level selected for the uniform draw `r` below the total weight.
pub open spec fn pick_level(s: Seq<u64>, r: int) -> int {
    pick_from(s, r, 0)
}

impl FFortuneMachine {
    /// The weights must carry positive total mass, and their exact total must
    /// be representable, so that a uniform draw below it exists.
    pub open spec fn wf(&self) -> bool {
        1 <= total_weight(self.dist@) <= u64::MAX
    }

    /// Construction with weights of zero total mass is a configuration
    /// error, excluded by the precondition.
    pub fn new(dist: [u64; 6]) -> (g: FFortuneMachine)
        requires
            1 <= total_weight(dist@) <= u64::MAX,
        ensures
            g.dist@ == dist@,
            g.wf(),
    {
        FFortuneMachine { dist }
    }

    /// The exact total of the six weights.
    pub fn total(&self) -> (t: u64)
        requires
            self.wf(),
        ensures
            t == total_weight(self.dist@),
            t >= 1,
    {
        let mut t: u64 = 0;
        let mut i: usize = 0;
        while i < 6
            invariant
                i <= 6,
                self.wf(),
                t == prefix_total(self.dist@, i as int),
            decreases 6 - i,
        {
            proof {
                lemma_prefix_total_monotone(self.dist@, i + 1 as int, 6);
            }
            t = t + self.dist[i];
            i = i + 1;
        }
        t
    }

    /// The deterministic part of sampling: maps the uniform draw `r` to the
    /// machine of the level picked by the inverse-CDF walk. The picked level
    /// always carries positive weight.
    pub fn sample_at(&self, r: u64) -> (m: FortuneMachine)
        requires
            self.wf(),
            r < total_weight(self.dist@),
        ensures
            m.level == pick_level(self.dist@, r as int),
            m.wf(),
            self.dist@[m.level as int] > 0,
    {
        let mut i: usize = 0;
        let mut rr: u64 = r;
        while i < 5
            invariant
                i <= 5,
                self.wf(),
                rr == r - prefix_total(self.dist@, i as int),
                rr <= r,
                pick_level(self.dist@, r as int) == pick_from(self.dist@, rr as int, i as int),
            decreases 5 - i,
        {
            if rr < self.dist[i] {
                return FortuneMachine { level: i as u8 };
            }
            rr = rr - self.dist[i];
            i = i + 1;
        }
        proof {
            assert(total_weight(self.dist@) == prefix_total(self.dist@, 5) + self.dist@[5]);
            assert(rr < self.dist@[5]);
        }
        FortuneMachine { level: 5 }
    }

    /// Sample a lottery machine: the result is the inverse-CDF pick of some
    /// draw below the total weight, so its level always carries positive
    /// prior weight.
    pub fn sample(&self, rng: &mut rand_pcg::Mcg128Xsl64) -> (m: FortuneMachine)
        requires
            self.wf(),
        ensures
            m.wf(),
            self.dist@[m.level as int] > 0,
            exists|r: int|
                0 <= r < total_weight(self.dist@) && m.level == pick_level(self.dist@, r),
    {
        let t = self.total();
        let r = rand_below(rng, t);
        let m = self.sample_at(r);
        proof {
            assert(0 <= (r as int) && (r as int) < total_weight(self.dist@) && m.level
                == pick_level(self.dist@, r as int));
        }
        m
    }
}

/// Every level picked by the walk carries positive weight.
pub proof fn lemma_pick_positive_weight(s: Seq<u64>, r: int, i: int)
    requires
        0 <= i < s.len(),
        0 <= r,
        r < total_weight(s) - prefix_total(s, i),
    ensures
        0 <= pick_from(s, r, i) < s.len(),
        s[pick_from(s, r, i)] > 0,
    decreases s.len() - i,
{
    if i >= s.len() - 1 {
        assert(total_weight(s) == prefix_total(s, s.len() - 1) + s[s.len() - 1]);
    } else if r < s[i] {
    } else {
        assert(prefix_total(s, i + 1) == prefix_total(s, i) + s[i]);
        lemma_pick_positive_weight(s, r - s[i], i + 1);
    }
}

/// A prior that puts all its mass on the top level always yields the machine
/// that always wins, whatever the draw.
pub proof fn lemma_degenerate_prior_forces_top(g: FFortuneMachine, r: int)
    requires
        g.wf(),
        forall|i: int| 0 <= i < 5 ==> g.dist@[i] == 0,
        0 <= r < total_weight(g.dist@),
    ensures
        pick_level(g.dist@, r) == 5,
{
    lemma_pick_positive_weight(g.dist@, r, 0);
}

/// A machine that generates machine generators: a closed set of strategies
/// for choosing the categorical prior.
#[derive(Debug, Copy, Clone)]
pub enum FFFortuneMachine {
    /// Always the uniform prior: equal weight on each of the six levels.
    AlwaysUniform,
}

impl FFFortuneMachine {
    /// Sample a machine generator. The uniform strategy consumes no
    /// randomness and always yields the generator with equal weights.
    pub fn sample(&self, _rng: &mut rand_pcg::Mcg128Xsl64) -> (g: FFortuneMachine)
        ensures
            g.dist@ == seq![1u64, 1u64, 1u64, 1u64, 1u64, 1u64],
            g.wf(),
    {
        match self {
            FFFortuneMachine::AlwaysUniform => {
                let dist: [u64; 6] = [1, 1, 1, 1, 1, 1];
                proof {
                    assert(dist@ =~= seq![1u64, 1u64, 1u64, 1u64, 1u64, 1u64]);
                    assert(prefix_total(dist@, 0) == 0);
                    assert(prefix_total(dist@, 1) == 1);
                    assert(prefix_total(dist@, 2) == 2);
                    assert(prefix_total(dist@, 3) == 3);
                    assert(prefix_total(dist@, 4) == 4);
                    assert(prefix_total(dist@, 5) == 5);
                    assert(total_weight(dist@) == 6);
                }
                FFortuneMachine::new(dist)
            },
        }
    }
}

} // verus!
