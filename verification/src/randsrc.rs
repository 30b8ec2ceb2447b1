//! The pseudo-random source that every sampling operation draws from.
//!
//! The library threads one `rand_pcg::Mcg128Xsl64` generator through all
//! sampling calls; the only operation the verified code needs from it is a
//! uniform draw below a given bound.

use rand::Rng;
use vstd::prelude::*;

verus! {

/// rand_pcg's Mcg128Xsl64 generator, declared so that it can stand in the
/// signatures of the sampling functions. Its state is opaque to the proofs.
#[verifier::external_type_specification]
#[verifier::external_body]
pub struct ExMcg128Xsl64(rand_pcg::Mcg128Xsl64);

/// Relies on rand::Rng::gen_range over the half-open range `0..n`: the result
/// is drawn uniformly from that range, so it is below `n`. gen_range panics
/// only on an empty range, which the precondition excludes. Nothing more can
/// be promised of a random draw.
#[verifier::external_body]
pub(crate) fn rand_below(rng: &mut rand_pcg::Mcg128Xsl64, n: u64) -> (r: u64)
    requires
        n >= 1,
    ensures
        r < n,
{
    rng.gen_range(0..n)
}

} // verus!
