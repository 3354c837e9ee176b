//! The answer to a request for a fee estimate.

use vstd::prelude::*;

use crate::uint256::U256;

verus! {

/// The body of the answer: the estimated fee, or an error message beside a
/// fee of zero.
#[derive(Debug)]
pub struct EstimateResponse {
    estimated_fee_wei: U256,
    error: Option<String>,
}

impl EstimateResponse {
    /// The fee in wei that the answer carries.
    pub closed spec fn fee(self) -> U256 {
        self.estimated_fee_wei
    }

    /// The error message that the answer carries, if any.
    pub closed spec fn message(self) -> Option<String> {
        self.error
    }

    /// The answer to a request that was estimated.
    pub fn success(estimated_fee_wei: U256) -> (r: Self)
        ensures
            r.fee() == estimated_fee_wei,
            r.message() is None,
    {
        Self { estimated_fee_wei, error: None }
    }

    /// The answer to a request that could not be estimated.
    pub fn error(error: String) -> (r: Self)
        ensures
            r.fee()@ == 0,
            r.message() == Some(error),
    {
        Self { estimated_fee_wei: U256::zero(), error: Some(error) }
    }

    /// The fee and the error message, in that order.
    pub fn into_parts(self) -> (r: (U256, Option<String>))
        ensures
            r.0 == self.fee(),
            r.1 == self.message(),
    {
        (self.estimated_fee_wei, self.error)
    }
}

} // verus!
