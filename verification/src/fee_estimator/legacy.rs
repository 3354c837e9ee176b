//! The fee of a legacy transaction.

use vstd::prelude::*;

use super::eip2930::is_eip2930_estimate;
use super::gas_meter::metered;
use super::gas_used_estimator::{
    self, gas_costs, gas_used, is_meterable, lemma_gas_monotonic, GasUsedEstimator,
};
use super::hex_text::decoded_hex;
use super::hex_text::is_hex_text;
use super::schedule::{london_spec, Config};
use super::{fee_of, priced, EIP2930Transaction, Error, LegacyTransaction, Transaction, GWEI};
use crate::uint256::{clamped_u64, lemma_saturating_mul_monotonic, saturating_mul_spec, U256};

verus! {

/// Whether `r` is the estimate for `transaction`: the gas it uses under the
/// London schedule, within its gas limit, times its gas price in wei. Gas is
/// counted in 64 bits, so a gas limit beyond them is metered as the largest
/// that they hold.
pub open spec fn is_legacy_estimate(transaction: LegacyTransaction, r: Result<U256, Error>) -> bool {
    if is_hex_text(transaction.input@) {
        fee_of(r) == priced(
            saturating_mul_spec(transaction.gas_price@, GWEI as nat),
            gas_used(
                london_spec(),
                clamped_u64(transaction.gas_limit@),
                Transaction::Legacy(transaction),
            ),
        )
    } else {
        r matches Err(Error::InputEstimator(gas_used_estimator::Error::HexDecode(_)))
    }
}

/// Estimates the fee of legacy transactions.
pub struct LegacyTransactionEstimator;

impl LegacyTransactionEstimator {
    /// Estimates the fee of `transaction` in wei.
    pub fn estimate(&self, transaction: LegacyTransaction) -> (r: Result<U256, Error>)
        requires
            is_meterable(Transaction::Legacy(transaction)),
        ensures
            is_legacy_estimate(transaction, r),
    {
        let estimator = GasUsedEstimator::new(Config::london(), transaction.gas_limit.saturating_to_u64());
        let gas_price = transaction.gas_price.saturating_mul(U256::from_u64(GWEI));
        match estimator.estimate(Transaction::Legacy(transaction)) {
            Ok(gas_used) => Ok(gas_price.saturating_mul(U256::from_u64(gas_used))),
            Err(error) => Err(Error::InputEstimator(error)),
        }
    }
}

/// A legacy transaction is estimated as the transaction with an access list
/// that has the same price, gas limit, input and kind of action, and an
/// empty access list.
pub proof fn lemma_legacy_is_fee_list_without_access_list(
    transaction: LegacyTransaction,
    fee_list: EIP2930Transaction,
    r: Result<U256, Error>,
)
    requires
        fee_list.gas_price@ == transaction.gas_price@,
        fee_list.gas_limit@ == transaction.gas_limit@,
        fee_list.input@ == transaction.input@,
        fee_list.action is Create <==> transaction.action is Create,
        fee_list.access_list@.len() == 0,
    ensures
        is_legacy_estimate(transaction, r) <==> is_eip2930_estimate(fee_list, r),
        is_meterable(Transaction::Legacy(transaction)) <==> is_meterable(
            Transaction::EIP2930(fee_list),
        ),
{
    assert(fee_list.access_list@ =~= Seq::empty());
}

/// At one price and one gas limit, appending bytes to the input never lowers
/// the fee: where both inputs are estimated, the longer one costs no less.
pub proof fn lemma_legacy_fee_monotonic(
    shorter: LegacyTransaction,
    longer: LegacyTransaction,
    more: Seq<u8>,
    fee: Result<U256, Error>,
    higher_fee: Result<U256, Error>,
)
    requires
        longer.gas_price@ == shorter.gas_price@,
        longer.gas_limit@ == shorter.gas_limit@,
        longer.action is Create <==> shorter.action is Create,
        is_hex_text(shorter.input@),
        is_hex_text(longer.input@),
        decoded_hex(longer.input@) == decoded_hex(shorter.input@) + more,
        is_meterable(Transaction::Legacy(longer)),
        is_legacy_estimate(shorter, fee),
        is_legacy_estimate(longer, higher_fee),
    ensures
        higher_fee matches Ok(high) ==> (fee matches Ok(low) && low@ <= high@),
{
    let limit = clamped_u64(shorter.gas_limit@);
    let data = decoded_hex(shorter.input@);
    lemma_gas_monotonic(
        london_spec(),
        limit,
        shorter.action is Create,
        data,
        more,
        Seq::empty(),
    );
    let price = saturating_mul_spec(shorter.gas_price@, GWEI as nat);
    let short_gas = metered(
        limit,
        gas_costs(london_spec(), shorter.action is Create, data, Seq::empty()),
    );
    let long_gas = metered(
        limit,
        gas_costs(london_spec(), shorter.action is Create, data + more, Seq::empty()),
    );
    if let Ok(long_used) = long_gas {
        if let Ok(short_used) = short_gas {
            lemma_saturating_mul_monotonic(price, short_used as nat, long_used as nat);
        }
    }
}

} // verus!
