//! The fee of a transaction with an access list.

use vstd::prelude::*;

use super::gas_used_estimator::{
    self, gas_used, is_meterable, lemma_gas_depends_on_access_list_counts, GasUsedEstimator,
};
use super::hex_text::decoded_hex;
use super::transaction_cost::storage_key_count;
use super::hex_text::is_hex_text;
use super::schedule::{london_spec, Config};
use super::{fee_of, priced, EIP2930Transaction, Error, Transaction, GWEI};
use crate::uint256::{clamped_u64, saturating_mul_spec, U256};

verus! {

/// Whether `r` is the estimate for `transaction`: the gas it uses under the
/// London schedule, its access list counted in, within its gas limit, times
/// its gas price in wei. Gas is counted in 64 bits, so a gas limit beyond
/// them is metered as the largest that they hold.
pub open spec fn is_eip2930_estimate(transaction: EIP2930Transaction, r: Result<U256, Error>) -> bool {
    if is_hex_text(transaction.input@) {
        fee_of(r) == priced(
            saturating_mul_spec(transaction.gas_price@, GWEI as nat),
            gas_used(
                london_spec(),
                clamped_u64(transaction.gas_limit@),
                Transaction::EIP2930(transaction),
            ),
        )
    } else {
        r matches Err(Error::InputEstimator(gas_used_estimator::Error::HexDecode(_)))
    }
}

/// Estimates the fee of transactions with an access list.
pub struct EIP2930TransactionEstimator;

impl EIP2930TransactionEstimator {
    /// Estimates the fee of `transaction` in wei.
    pub fn estimate(&self, transaction: EIP2930Transaction) -> (r: Result<U256, Error>)
        requires
            is_meterable(Transaction::EIP2930(transaction)),
        ensures
            is_eip2930_estimate(transaction, r),
    {
        let estimator = GasUsedEstimator::new(Config::london(), transaction.gas_limit.saturating_to_u64());
        let gas_price = transaction.gas_price.saturating_mul(U256::from_u64(GWEI));
        match estimator.estimate(Transaction::EIP2930(transaction)) {
            Ok(gas_used) => Ok(gas_price.saturating_mul(U256::from_u64(gas_used))),
            Err(error) => Err(Error::InputEstimator(error)),
        }
    }
}

/// The order of the access list does not matter to the fee, neither that of
/// its items nor that of the storage keys of an item: two transactions that
/// differ in their access lists only, and declare as many addresses and as
/// many storage keys, have the same estimate.
pub proof fn lemma_access_list_order_keeps_estimate(
    transaction: EIP2930Transaction,
    reordered: EIP2930Transaction,
    r: Result<U256, Error>,
)
    requires
        reordered.gas_price@ == transaction.gas_price@,
        reordered.gas_limit@ == transaction.gas_limit@,
        reordered.input@ == transaction.input@,
        reordered.action is Create <==> transaction.action is Create,
        reordered.access_list@.len() == transaction.access_list@.len(),
        storage_key_count(reordered.access_list@) == storage_key_count(transaction.access_list@),
    ensures
        is_eip2930_estimate(transaction, r) <==> is_eip2930_estimate(reordered, r),
        is_meterable(Transaction::EIP2930(transaction)) <==> is_meterable(
            Transaction::EIP2930(reordered),
        ),
{
    lemma_gas_depends_on_access_list_counts(
        london_spec(),
        transaction.action is Create,
        decoded_hex(transaction.input@),
        transaction.access_list@,
        reordered.access_list@,
    );
}

} // verus!
