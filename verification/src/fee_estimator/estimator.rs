//! The transaction model and the estimator that serves every transaction
//! type.

use primitive_types::{H160, H256};
use vstd::prelude::*;

use super::eip1559::{covers_price, is_eip1559_estimate, EIP1559TransactionEstimator};
use super::eip2930::{is_eip2930_estimate, EIP2930TransactionEstimator};
use super::gas_used_estimator::{self, is_meterable, GasUsedEstimator};
use super::legacy::{is_legacy_estimate, LegacyTransactionEstimator};
use super::GWEI;
use crate::uint256::{
    lemma_saturating_mul, lemma_saturating_mul_monotonic, saturating_mul_spec, u256_max, U256,
};

verus! {

/// `primitive_types::H160`, an address: carried through, never read.
#[verifier::external_type_specification]
#[verifier::external_body]
pub struct ExH160(primitive_types::H160);

/// `primitive_types::H256`, a storage key: carried through, never read.
#[verifier::external_type_specification]
#[verifier::external_body]
pub struct ExH256(primitive_types::H256);

/// Why a fee could not be estimated.
#[derive(Debug)]
pub enum Error {
    /// The gas used could not be estimated.
    InputEstimator(gas_used_estimator::Error),
    /// The maximum fee per gas, in wei, is below the price that the
    /// transaction would have to pay.
    MaxFeePerGasTooLow { current: U256, calculated: U256 },
}

/// What a transaction does: call the account at an address, or create a
/// contract.
#[derive(Debug)]
pub enum TransactionAction {
    Call(H160),
    Create,
}

/// An address and the storage keys of it that a transaction declares it will
/// touch.
#[derive(Debug)]
pub struct AccessListItem {
    pub address: H160,
    pub storage_keys: Vec<H256>,
}

pub type AccessList = Vec<AccessListItem>;

/// A transaction of one of the three supported types.
#[derive(Debug)]
pub enum Transaction {
    /// Legacy transaction type
    Legacy(LegacyTransaction),
    /// EIP-2930 transaction
    EIP2930(EIP2930Transaction),
    /// EIP-1559 transaction
    EIP1559(EIP1559Transaction),
}

/// A transaction with a gas price in gwei. `input` is hex text: the code of
/// the contract to create, or the data of the call.
#[derive(Debug)]
pub struct LegacyTransaction {
    pub gas_price: U256,
    pub gas_limit: U256,
    pub input: String,
    pub action: TransactionAction,
}

/// A transaction with a gas price in gwei and an access list.
#[derive(Debug)]
pub struct EIP2930Transaction {
    pub gas_price: U256,
    pub gas_limit: U256,
    pub input: String,
    pub action: TransactionAction,
    pub access_list: AccessList,
}

/// A transaction that pays the market price plus a priority fee, up to a
/// maximum fee; both are given in gwei.
#[derive(Debug)]
pub struct EIP1559Transaction {
    pub max_priority_fee_per_gas: U256,
    pub max_fee_per_gas: U256,
    pub gas_limit: U256,
    pub input: String,
    pub action: TransactionAction,
    pub access_list: AccessList,
}

/// The fee for `metering`, the outcome of estimating the gas used, at
/// `price` wei per gas: the product of the two, clamped at the largest
/// amount, or the error of the metering.
pub open spec fn priced(price: nat, metering: Result<u64, gas_used_estimator::Error>) -> Result<
    nat,
    Error,
> {
    match metering {
        Ok(gas_used) => Ok(saturating_mul_spec(price, gas_used as nat)),
        Err(error) => Err(Error::InputEstimator(error)),
    }
}

/// At a fixed price, more gas never costs less.
pub proof fn lemma_fee_monotonic(price: nat, gas_used: u64, more_gas_used: u64)
    requires
        gas_used <= more_gas_used,
    ensures
        priced(price, Ok(gas_used)) matches Ok(fee) && priced(price, Ok(more_gas_used)) matches Ok(
            higher_fee,
        ) && fee <= higher_fee,
{
    lemma_saturating_mul_monotonic(price, gas_used as nat, more_gas_used as nat);
}

/// A fee is the product of price and gas used where that fits in 256 bits,
/// and the largest amount where it does not. For gas used and a price of at
/// least 1 it is smaller than neither.
pub proof fn lemma_fee_saturates(price: nat, gas_used: u64)
    requires
        price <= u256_max(),
    ensures
        priced(price, Ok(gas_used)) == Ok::<nat, Error>(
            if price * gas_used > u256_max() {
                u256_max()
            } else {
                price * (gas_used as nat)
            },
        ),
        priced(price, Ok(gas_used)) matches Ok(fee) && fee <= u256_max() && (price >= 1 && gas_used
            >= 1 ==> fee >= price && fee >= gas_used),
{
    lemma_saturating_mul(price, gas_used as nat);
}

/// The outcome of an estimate, with the fee as a number.
pub open spec fn fee_of(r: Result<U256, Error>) -> Result<nat, Error> {
    match r {
        Ok(fee) => Ok(fee@),
        Err(error) => Err(error),
    }
}

impl Transaction {
    /// The hex text of the transaction's input.
    pub open spec fn input_text(self) -> Seq<char> {
        match self {
            Transaction::Legacy(tx) => tx.input@,
            Transaction::EIP2930(tx) => tx.input@,
            Transaction::EIP1559(tx) => tx.input@,
        }
    }

    /// Whether the transaction creates a contract.
    pub open spec fn is_create(self) -> bool {
        match self {
            Transaction::Legacy(tx) => tx.action is Create,
            Transaction::EIP2930(tx) => tx.action is Create,
            Transaction::EIP1559(tx) => tx.action is Create,
        }
    }

    /// The access list that the transaction declares; a legacy transaction
    /// declares none.
    pub open spec fn declared_access_list(self) -> Seq<AccessListItem> {
        match self {
            Transaction::Legacy(_) => Seq::empty(),
            Transaction::EIP2930(tx) => tx.access_list@,
            Transaction::EIP1559(tx) => tx.access_list@,
        }
    }
}

/// Whether the fee of `transaction` can be estimated at the market price
/// `gas_price`: unless the transaction is turned down before any metering,
/// it can be metered.
pub open spec fn can_estimate(transaction: Transaction, gas_price: nat) -> bool {
    match transaction {
        Transaction::EIP1559(tx) => covers_price(tx, gas_price) ==> is_meterable(transaction),
        _ => is_meterable(transaction),
    }
}

/// Whether `r` is the estimate for `transaction` at the market price
/// `gas_price`: the estimate that the rules of its type give.
pub open spec fn is_estimate(transaction: Transaction, gas_price: nat, r: Result<U256, Error>) -> bool {
    match transaction {
        Transaction::Legacy(tx) => is_legacy_estimate(tx, r),
        Transaction::EIP2930(tx) => is_eip2930_estimate(tx, r),
        Transaction::EIP1559(tx) => is_eip1559_estimate(tx, gas_price, r),
    }
}

/// The market price matters to fee-capped transactions only: the estimate
/// for a transaction of another type is the same at every market price.
pub proof fn lemma_market_price_only_for_fee_capped(
    transaction: Transaction,
    gas_price: nat,
    other_gas_price: nat,
    r: Result<U256, Error>,
)
    requires
        !(transaction is EIP1559),
    ensures
        is_estimate(transaction, gas_price, r) <==> is_estimate(transaction, other_gas_price, r),
        can_estimate(transaction, gas_price) <==> can_estimate(transaction, other_gas_price),
{
}

/// The main gas cost estimator, it can estimate Legacy, EIP-2930 and EIP-1559 transactions.
pub struct Estimator {
    gas_price: U256,
}

impl Estimator {
    /// The market price in wei per gas that fees are estimated at.
    pub closed spec fn gas_price(self) -> nat {
        self.gas_price@
    }

    /// An estimator for the market price `gas_price`, in wei per gas.
    pub fn new(gas_price: U256) -> (r: Self)
        ensures
            r.gas_price() == gas_price@,
    {
        Self { gas_price }
    }

    /// Whether the fee of `transaction` depends on the market price. Only an
    /// EIP-1559 transaction pays it.
    pub fn needs_gas_price(transaction: &Transaction) -> (r: bool)
        ensures
            r == (*transaction is EIP1559),
    {
        match transaction {
            Transaction::EIP1559(_) => true,
            _ => false,
        }
    }

    /// Whether `transaction` meets what [`Estimator::estimate`] asks of it.
    pub fn accepts(&self, transaction: &Transaction) -> (r: bool)
        ensures
            r == can_estimate(*transaction, self.gas_price()),
    {
        match transaction {
            Transaction::Legacy(_) => GasUsedEstimator::accepts(transaction),
            Transaction::EIP2930(_) => GasUsedEstimator::accepts(transaction),
            Transaction::EIP1559(tx) => {
                let max_fee_per_gas = tx.max_fee_per_gas.saturating_mul(U256::from_u64(GWEI));
                let gas_price = tx.max_priority_fee_per_gas.saturating_mul(
                    U256::from_u64(GWEI),
                ).saturating_add(self.gas_price);
                max_fee_per_gas.lt(&gas_price) || GasUsedEstimator::accepts(transaction)
            },
        }
    }

    /// Estimates the cost of the given transaction in WEI.
    pub fn estimate(&self, transaction: Transaction) -> (r: Result<U256, Error>)
        requires
            can_estimate(transaction, self.gas_price()),
        ensures
            is_estimate(transaction, self.gas_price(), r),
    {
        match transaction {
            Transaction::Legacy(tx) => LegacyTransactionEstimator.estimate(tx),
            Transaction::EIP2930(tx) => EIP2930TransactionEstimator.estimate(tx),
            Transaction::EIP1559(tx) => EIP1559TransactionEstimator::new(self.gas_price).estimate(
                tx,
            ),
        }
    }
}

} // verus!
