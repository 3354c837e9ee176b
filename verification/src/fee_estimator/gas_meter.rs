//! A running total of gas, bounded by a gas limit.

use vstd::prelude::*;

use super::gas_used_estimator::Error;

verus! {

/// The outcome of recording `costs` one after another against `gas_limit`:
/// their sum, or the first step at which the total would have exceeded the
/// limit.
pub open spec fn metered(gas_limit: u64, costs: Seq<u64>) -> Result<u64, Error>
    decreases costs.len(),
{
    if costs.len() == 0 {
        Ok(0)
    } else {
        match metered(gas_limit, costs.drop_last()) {
            Ok(used) => if used + costs.last() > gas_limit {
                Err(
                    Error::GasLimitExceeded {
                        current_total: used,
                        limit: gas_limit,
                        attempted_increment: costs.last(),
                    },
                )
            } else {
                Ok((used + costs.last()) as u64)
            },
            Err(error) => Err(error),
        }
    }
}

/// The sum of `costs`.
pub open spec fn total(costs: Seq<u64>) -> nat
    decreases costs.len(),
{
    if costs.len() == 0 {
        0
    } else {
        total(costs.drop_last()) + costs.last() as nat
    }
}

/// A running total of gas that never exceeds its limit.
pub struct GasMeter {
    gas_limit: u64,
    used_gas: u64,
}

impl GasMeter {
    #[verifier::type_invariant]
    spec fn within_limit(self) -> bool {
        self.used_gas <= self.gas_limit
    }

    /// The limit that the total is held to.
    pub closed spec fn limit(self) -> u64 {
        self.gas_limit
    }

    /// The gas recorded so far.
    pub closed spec fn used(self) -> u64 {
        self.used_gas
    }

    /// A meter with nothing recorded.
    pub fn new(gas_limit: u64) -> (r: GasMeter)
        ensures
            r.limit() == gas_limit,
            r.used() == 0,
    {
        GasMeter { gas_limit, used_gas: 0 }
    }

    /// The gas recorded so far.
    pub fn total_used_gas(&self) -> (r: u64)
        ensures
            r == self.used(),
            r <= self.limit(),
    {
        proof {
            use_type_invariant(self);
        }
        self.used_gas
    }

    /// Adds `cost` to the total, unless the total would then exceed the
    /// limit: in that case nothing is recorded and the error reports the
    /// total, the limit and `cost`.
    pub fn record_cost(&mut self, cost: u64) -> (r: Result<(), Error>)
        ensures
            final(self).limit() == old(self).limit(),
            old(self).used() + cost <= old(self).limit() ==> r is Ok && final(self).used() == old(
                self,
            ).used() + cost,
            old(self).used() + cost > old(self).limit() ==> final(self).used() == old(self).used()
                && r == Err::<(), Error>(
                Error::GasLimitExceeded {
                    current_total: old(self).used(),
                    limit: old(self).limit(),
                    attempted_increment: cost,
                },
            ),
    {
        proof {
            use_type_invariant(&*self);
        }
        if cost > self.gas_limit - self.used_gas {
            return Err(
                Error::GasLimitExceeded {
                    current_total: self.used_gas,
                    limit: self.gas_limit,
                    attempted_increment: cost,
                },
            );
        }
        self.used_gas = self.used_gas + cost;
        Ok(())
    }
}

/// Once a step has exceeded the limit, the outcome stays what it is
/// whatever costs follow.
pub proof fn lemma_metered_stops(gas_limit: u64, costs: Seq<u64>, rest: Seq<u64>)
    requires
        metered(gas_limit, costs) is Err,
    ensures
        metered(gas_limit, costs + rest) == metered(gas_limit, costs),
    decreases rest.len(),
{
    if rest.len() == 0 {
        assert(costs + rest =~= costs);
    } else {
        lemma_metered_stops(gas_limit, costs, rest.drop_last());
        assert((costs + rest).drop_last() =~= costs + rest.drop_last());
    }
}

/// Metering succeeds exactly when the sum of the costs is within the limit,
/// and then gives that sum.
pub proof fn lemma_metered_total(gas_limit: u64, costs: Seq<u64>)
    ensures
        metered(gas_limit, costs) is Ok <==> total(costs) <= gas_limit,
        metered(gas_limit, costs) matches Ok(used) ==> used == total(costs),
    decreases costs.len(),
{
    if costs.len() > 0 {
        lemma_metered_total(gas_limit, costs.drop_last());
    }
}

/// The sum of two runs of costs is the sum of their sums.
pub proof fn lemma_total_concat(costs: Seq<u64>, rest: Seq<u64>)
    ensures
        total(costs + rest) == total(costs) + total(rest),
    decreases rest.len(),
{
    if rest.len() == 0 {
        assert(costs + rest =~= costs);
    } else {
        lemma_total_concat(costs, rest.drop_last());
        assert((costs + rest).drop_last() =~= costs + rest.drop_last());
    }
}

} // verus!
