//! The fee of a transaction that pays the market price and a priority fee,
//! up to a maximum.

use vstd::prelude::*;

use super::gas_used_estimator::{self, gas_used, is_meterable, GasUsedEstimator};
use super::hex_text::is_hex_text;
use super::schedule::{london_spec, Config};
use super::{fee_of, priced, EIP1559Transaction, Error, Transaction, GWEI};
use crate::uint256::{
    clamped_u64, lemma_saturating_add, lemma_saturating_mul, lemma_u256_bounded,
    saturating_add_spec, saturating_mul_spec, u256_max, U256,
};

verus! {

/// The most that `transaction` pays per gas, in wei.
pub open spec fn scaled_max_fee(transaction: EIP1559Transaction) -> nat {
    saturating_mul_spec(transaction.max_fee_per_gas@, GWEI as nat)
}

/// What `transaction` has to pay per gas, in wei, at the market price
/// `gas_price`: its priority fee on top of that price.
pub open spec fn effective_price(transaction: EIP1559Transaction, gas_price: nat) -> nat {
    saturating_add_spec(
        saturating_mul_spec(transaction.max_priority_fee_per_gas@, GWEI as nat),
        gas_price,
    )
}

/// Whether the maximum fee of `transaction` covers what it has to pay per
/// gas at the market price `gas_price`.
pub open spec fn covers_price(transaction: EIP1559Transaction, gas_price: nat) -> bool {
    scaled_max_fee(transaction) >= effective_price(transaction, gas_price)
}

/// Whether `r` is the estimate for `transaction` at the market price
/// `gas_price`. Where the maximum fee does not cover the effective price,
/// that is the error, whatever the input and the gas limit hold. Otherwise
/// it is the gas used under the London schedule, within the gas limit, times
/// the effective price. Gas is counted in 64 bits, so a gas limit beyond
/// them is metered as the largest that they hold.
pub open spec fn is_eip1559_estimate(
    transaction: EIP1559Transaction,
    gas_price: nat,
    r: Result<U256, Error>,
) -> bool {
    if !covers_price(transaction, gas_price) {
        r matches Err(Error::MaxFeePerGasTooLow { current, calculated }) && current@
            == scaled_max_fee(transaction) && calculated@ == effective_price(
            transaction,
            gas_price,
        )
    } else if is_hex_text(transaction.input@) {
        fee_of(r) == priced(
            effective_price(transaction, gas_price),
            gas_used(
                london_spec(),
                clamped_u64(transaction.gas_limit@),
                Transaction::EIP1559(transaction),
            ),
        )
    } else {
        r matches Err(Error::InputEstimator(gas_used_estimator::Error::HexDecode(_)))
    }
}

/// Estimates fees at one market price.
pub struct EIP1559TransactionEstimator {
    gas_price: U256,
}

impl EIP1559TransactionEstimator {
    /// The market price in wei per gas that fees are estimated at.
    pub closed spec fn gas_price(self) -> nat {
        self.gas_price@
    }

    /// An estimator for the market price `gas_price`, in wei per gas.
    pub fn new(gas_price: U256) -> (r: Self)
        ensures
            r.gas_price() == gas_price@,
    {
        Self { gas_price }
    }

    /// Estimates the fee of `transaction` in wei. Nothing is metered where
    /// the maximum fee does not cover the effective price.
    pub fn estimate(&self, transaction: EIP1559Transaction) -> (r: Result<U256, Error>)
        requires
            covers_price(transaction, self.gas_price()) ==> is_meterable(
                Transaction::EIP1559(transaction),
            ),
        ensures
            is_eip1559_estimate(transaction, self.gas_price(), r),
    {
        let max_fee_per_gas = transaction.max_fee_per_gas.saturating_mul(U256::from_u64(GWEI));
        let gas_price = transaction.max_priority_fee_per_gas.saturating_mul(
            U256::from_u64(GWEI),
        ).saturating_add(self.gas_price);

        if max_fee_per_gas.lt(&gas_price) {
            return Err(
                Error::MaxFeePerGasTooLow { current: max_fee_per_gas, calculated: gas_price },
            );
        }
        let estimator = GasUsedEstimator::new(
            Config::london(),
            transaction.gas_limit.saturating_to_u64(),
        );
        match estimator.estimate(Transaction::EIP1559(transaction)) {
            Ok(gas_used) => Ok(gas_price.saturating_mul(U256::from_u64(gas_used))),
            Err(error) => Err(Error::InputEstimator(error)),
        }
    }
}

/// No amount of a fee-capped estimate is smaller than what it is made of:
/// the scaled maximum fee is at least the maximum fee, and the effective
/// price is at least the priority fee and at least the market price. None
/// exceeds the largest amount.
pub proof fn lemma_prices_saturate(transaction: EIP1559Transaction, gas_price: nat)
    requires
        gas_price <= u256_max(),
    ensures
        transaction.max_fee_per_gas@ <= scaled_max_fee(transaction) <= u256_max(),
        transaction.max_priority_fee_per_gas@ <= effective_price(transaction, gas_price)
            <= u256_max(),
        gas_price <= effective_price(transaction, gas_price),
        scaled_max_fee(transaction) == if transaction.max_fee_per_gas@ * GWEI > u256_max() {
            u256_max()
        } else {
            transaction.max_fee_per_gas@ * (GWEI as nat)
        },
{
    lemma_u256_bounded(transaction.max_fee_per_gas);
    lemma_u256_bounded(transaction.max_priority_fee_per_gas);
    lemma_saturating_mul(transaction.max_fee_per_gas@, GWEI as nat);
    lemma_saturating_mul(transaction.max_priority_fee_per_gas@, GWEI as nat);
    lemma_saturating_add(
        saturating_mul_spec(transaction.max_priority_fee_per_gas@, GWEI as nat),
        gas_price,
    );
}

/// Whether a transaction is turned down for its maximum fee depends on its
/// two fees and the market price alone: its input, its action, its access
/// list and its gas limit do not matter, and neither do they to the error.
pub proof fn lemma_rejection_depends_on_fees_alone(
    transaction: EIP1559Transaction,
    other: EIP1559Transaction,
    gas_price: nat,
    r: Result<U256, Error>,
)
    requires
        other.max_fee_per_gas@ == transaction.max_fee_per_gas@,
        other.max_priority_fee_per_gas@ == transaction.max_priority_fee_per_gas@,
        !covers_price(transaction, gas_price),
    ensures
        !covers_price(other, gas_price),
        is_eip1559_estimate(transaction, gas_price, r) <==> is_eip1559_estimate(
            other,
            gas_price,
            r,
        ),
        is_eip1559_estimate(transaction, gas_price, r) ==> r is Err && !(r matches Err(
            Error::InputEstimator(_),
        )),
{
}

/// A transaction whose maximum fee covers the effective price is never
/// turned down for it.
pub proof fn lemma_covered_price_is_accepted(
    transaction: EIP1559Transaction,
    gas_price: nat,
    r: Result<U256, Error>,
)
    requires
        covers_price(transaction, gas_price),
        is_eip1559_estimate(transaction, gas_price, r),
    ensures
        !(r matches Err(Error::MaxFeePerGasTooLow { .. })),
{
}

} // verus!
