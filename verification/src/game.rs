//! The game session: a state machine that runs lottery episodes against a
//! hidden machine, grades guesses, and keeps the running score.
//!
//! A session holds one machine generator for its whole lifetime; each episode
//! samples a fresh hidden machine from it on the first draw, accumulates draw
//! statistics, and ends when a guess is submitted. A guess is the level index
//! of one of the six discretized probabilities, and is graded by exact
//! comparison with the hidden machine's level.

use crate::fortune::FFFortuneMachine;
use crate::fortune::FFortuneMachine;
use crate::fortune::FortuneMachine;
use crate::fortune::LotResult;
use vstd::prelude::*;

verus! {

/// Session configuration: the turn budget and the score awarded for a
/// correct or a wrong guess.
#[derive(Debug, Copy, Clone)]
pub struct FortuneGameParameters {
    /// Number of draws a session may make; must be positive.
    pub max_turn: u32,
    /// Score added when a submitted guess matches the hidden level.
    pub win_point: i64,
    /// Score added when a submitted guess misses the hidden level.
    pub lose_point: i64,
}

impl FortuneGameParameters {
    pub open spec fn wf(&self) -> bool {
        self.max_turn >= 1
    }
}

impl Default for FortuneGameParameters {
    /// The default configuration: 300 turns, one point for a correct guess,
    /// minus three for a wrong one.
    fn default() -> (p: FortuneGameParameters)
        ensures
            p.max_turn == 300,
            p.win_point == 1,
            p.lose_point == -3,
            p.wf(),
    {
        FortuneGameParameters { max_turn: 300, win_point: 1, lose_point: -3 }
    }
}

/// One lottery episode: the hidden machine and the draw statistics so far.
pub struct Lottery {
    /// The episode's hidden machine; its level is revealed when a guess is
    /// submitted.
    pub f_machine: FortuneMachine,
    /// Draws made in this episode.
    pub total_count: u32,
    /// Winning draws made in this episode.
    pub win_count: u32,
}

impl Lottery {
    pub open spec fn wf(&self) -> bool {
        &&& self.f_machine.wf()
        &&& self.win_count <= self.total_count
    }
}

/// A game session: the per-session machine generator, the configuration, the
/// turn counter, the running score, and the in-progress episode, if any.
pub struct FortuneGame {
    /// The machine generator sampled once at session creation.
    pub ff_machine: FFortuneMachine,
    pub params: FortuneGameParameters,
    /// Draws made over the whole session; never exceeds `params.max_turn`.
    pub current_turn: u32,
    /// The running score.
    pub current_point: i64,
    /// The in-progress episode, if one is active.
    pub lottery: Option<Lottery>,
}

impl FortuneGame {
    pub open spec fn wf(&self) -> bool {
        &&& self.params.wf()
        &&& self.ff_machine.wf()
        &&& self.current_turn <= self.params.max_turn
        &&& match self.lottery {
            Some(l) => l.wf() && 1 <= l.total_count && l.total_count <= self.current_turn,
            None => true,
        }
    }

    /// Start a session: sample the per-session machine generator from the
    /// strategy, with no active episode, at turn zero and score zero.
    pub fn new(
        rng: &mut rand_pcg::Mcg128Xsl64,
        fff_machine: &mut FFFortuneMachine,
        params: FortuneGameParameters,
    ) -> (g: FortuneGame)
        requires
            params.wf(),
        ensures
            g.wf(),
            g.params == params,
            g.current_turn == 0,
            g.current_point == 0,
            g.lottery is None,
            g.ff_machine.dist@ == seq![1u64, 1u64, 1u64, 1u64, 1u64, 1u64],
            *final(fff_machine) == *old(fff_machine),
    {
        let ff_machine = fff_machine.sample(rng);
        FortuneGame { ff_machine, params, current_turn: 0, current_point: 0, lottery: None }
    }

    /// The in-progress episode, if one is active.
    pub fn lottery(&self) -> (l: Option<&Lottery>)
        ensures
            match l {
                Some(lot) => self.lottery is Some && *lot == self.lottery.unwrap(),
                None => self.lottery is None,
            },
    {
        self.lottery.as_ref()
    }

    /// Draw once. If no episode is active, a fresh hidden machine is sampled
    /// from the session's generator to start one. The turn counter and the
    /// episode's draw count each advance by one, and the episode's win count
    /// advances exactly when the draw wins. A machine at level 5 always
    /// wins and one at level 0 always loses. Drawing past the turn budget is
    /// a misuse of the session, excluded by the precondition.
    pub fn draw(&mut self, rng: &mut rand_pcg::Mcg128Xsl64) -> (res: LotResult)
        requires
            old(self).wf(),
            old(self).current_turn < old(self).params.max_turn,
        ensures
            final(self).wf(),
            final(self).params == old(self).params,
            final(self).ff_machine == old(self).ff_machine,
            final(self).current_point == old(self).current_point,
            final(self).current_turn == old(self).current_turn + 1,
            final(self).lottery is Some,
            ({
                let lot = final(self).lottery.unwrap();
                &&& match old(self).lottery {
                    Some(prev) => {
                        &&& lot.f_machine == prev.f_machine
                        &&& lot.total_count == prev.total_count + 1
                        &&& lot.win_count == prev.win_count + (
                        if res == LotResult::Win {
                            1int
                        } else {
                            0int
                        })
                    },
                    None => {
                        &&& old(self).ff_machine.dist@[lot.f_machine.level as int] > 0
                        &&& lot.total_count == 1
                        &&& lot.win_count == (if res == LotResult::Win {
                            1int
                        } else {
                            0int
                        })
                    },
                }
                &&& (lot.f_machine.level == 5 ==> res == LotResult::Win)
                &&& (lot.f_machine.level == 0 ==> res == LotResult::Lose)
            }),
    {
        let mut lottery = match self.lottery.take() {
            Some(l) => l,
            None => Lottery {
                f_machine: self.ff_machine.sample(rng),
                total_count: 0,
                win_count: 0,
            },
        };
        self.current_turn = self.current_turn + 1;
        lottery.total_count = lottery.total_count + 1;
        let res = lottery.f_machine.sample(rng);
        if res == LotResult::Win {
            lottery.win_count = lottery.win_count + 1;
        }
        self.lottery = Some(lottery);
        res
    }

    /// Grade a guess. With no active episode there is nothing to grade: the
    /// session is left unchanged and `None` says so. Otherwise the episode
    /// ends: the guess is compared with the hidden level, the score moves by
    /// `win_point` on a match and by `lose_point` otherwise, and the hidden
    /// level is revealed in the result.
    pub fn submit(&mut self, guess: u8) -> (r: Option<(bool, u8)>)
        requires
            old(self).lottery is Some ==> {
                let point = old(self).current_point;
                let params = old(self).params;
                &&& i64::MIN <= point + params.win_point <= i64::MAX
                &&& i64::MIN <= point + params.lose_point <= i64::MAX
            },
        ensures
            final(self).params == old(self).params,
            final(self).ff_machine == old(self).ff_machine,
            final(self).current_turn == old(self).current_turn,
            final(self).lottery is None,
            match old(self).lottery {
                Some(lot) => {
                    let correct = lot.f_machine.level == guess;
                    &&& r == Some((correct, lot.f_machine.level))
                    &&& final(self).current_point == old(self).current_point + (
                    if correct {
                        old(self).params.win_point
                    } else {
                        old(self).params.lose_point
                    })
                },
                None => r is None && *final(self) == *old(self),
            },
            old(self).wf() ==> final(self).wf(),
    {
        match self.lottery.take() {
            Some(lottery) => {
                let correct = lottery.f_machine.level == guess;
                if correct {
                    self.current_point = self.current_point + self.params.win_point;
                } else {
                    self.current_point = self.current_point + self.params.lose_point;
                }
                Some((correct, lottery.f_machine.level))
            },
            None => None,
        }
    }
}

} // verus!
