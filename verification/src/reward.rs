//! The reward calculator: a pure function from a contribution's scores and
//! the current reward policy to the number of points to mint.

use crate::contributions::ContributionMetrics;
use vstd::prelude::*;

verus! {

/// The truncating average of the three scores.
pub open spec fn spec_average(m: ContributionMetrics) -> int {
    (m.data_quality + m.model_improvement + m.participation_frequency) / 3
}

/// The points earned by `m` under a policy of `threshold` and `rate`: zero
/// where the average falls short of the threshold, and otherwise the
/// average times the rate percentage, truncated. An average exactly at the
/// threshold earns the reward.
pub open spec fn spec_reward(m: ContributionMetrics, threshold: u128, rate: u8) -> int {
    if spec_average(m) >= threshold {
        spec_average(m) * rate / 100
    } else {
        0
    }
}

/// Computes the reward for one contribution; deterministic and stateless.
pub fn compute(m: &ContributionMetrics, threshold: u128, rate: u8) -> (r: u128)
    ensures
        r == spec_reward(*m, threshold, rate),
        r <= 650,
{
    let average: u32 = (m.data_quality as u32 + m.model_improvement as u32
        + m.participation_frequency as u32) / 3;
    proof {
        assert(average == spec_average(*m));
        assert(average <= 255);
    }
    if average as u128 >= threshold {
        proof {
            assert(average * (rate as u32) <= 255 * 255) by (nonlinear_arith)
                requires
                    average <= 255,
                    rate <= 255,
            ;
        }
        let scaled: u32 = average * (rate as u32);
        (scaled / 100) as u128
    } else {
        0
    }
}

} // verus!
