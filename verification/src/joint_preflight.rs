//! Preflight of a pointwise joint evaluation: the number of evaluations is
//! checked before anything is allocated, so an oversized request is refused
//! with a typed error instead of wrapping around.
use vstd::arithmetic::mul::{lemma_mul_inequality, lemma_mul_is_commutative};
use vstd::prelude::*;

verus! {

/// Failure of a joint evaluation preflight.
#[derive(Debug, Clone, Copy, PartialEq, Eq, Structural)]
pub enum JointReportErrorV1 {
    /// The joint evaluation would not fit the address space.
    ResourceExhausted,
}

/// Total number of pointwise evaluations `candidates × scenarios ×
/// constraints`, rejected before any allocation when it does not fit `usize`.
pub fn checked_joint_cardinality(candidates: usize, scenarios: usize, constraints: usize) -> (result:
    Result<usize, JointReportErrorV1>)
    ensures
        candidates * scenarios * constraints <= usize::MAX ==> result == Ok::<
            usize,
            JointReportErrorV1,
        >((candidates * scenarios * constraints) as usize),
        candidates * scenarios * constraints > usize::MAX ==> result == Err::<
            usize,
            JointReportErrorV1,
        >(JointReportErrorV1::ResourceExhausted),
{
    if candidates == 0 || scenarios == 0 || constraints == 0 {
        proof {
            assert(candidates * scenarios * constraints == 0) by (nonlinear_arith)
                requires
                    candidates == 0 || scenarios == 0 || constraints == 0,
            ;
        }
        return Ok(0);
    }
    match candidates.checked_mul(scenarios) {
        Some(pairs) => match pairs.checked_mul(constraints) {
            Some(total) => Ok(total),
            None => Err(JointReportErrorV1::ResourceExhausted),
        },
        None => {
            proof {
                lemma_mul_inequality(1, constraints as int, (candidates * scenarios) as int);
                lemma_mul_is_commutative(constraints as int, (candidates * scenarios) as int);
            }
            Err(JointReportErrorV1::ResourceExhausted)
        },
    }
}

} // verus!
