//! A lottery game with a hidden, discretized win probability, together with
//! an online Bayesian estimator for that probability.
//!
//! Probabilities are discretized to the six levels `i/5` for `i` in `0..=5`.
//! Distributions over the six levels are held as exact non-negative integer
//! weights; the probability mass on level `i` is `weight[i] / total`, so all
//! bookkeeping is exact and the posterior always sums to one by construction.

mod bayes;
mod fortune;
mod game;
mod input;
mod randsrc;

pub use bayes::Bayes1;
pub use bayes::Expectation;
pub use fortune::FFFortuneMachine;
pub use fortune::FFortuneMachine;
pub use fortune::FortuneMachine;
pub use fortune::LotResult;
pub use game::FortuneGame;
pub use game::FortuneGameParameters;
pub use game::Lottery;
pub use input::UserInput;
pub use input::read_input;
