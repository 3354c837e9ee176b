//! Fee estimation: the transaction model, the gas meter and the price rules
//! of each transaction type.

pub mod bytecode;
pub mod eip1559;
pub mod eip2930;
mod estimator;
pub mod gas_meter;
pub mod gas_used_estimator;
pub mod hex_text;
pub mod legacy;
pub mod schedule;
pub mod transaction_cost;

pub use estimator::{
    can_estimate, fee_of, is_estimate, priced, AccessList, AccessListItem, EIP1559Transaction,
    EIP2930Transaction, Error, Estimator, LegacyTransaction, Transaction, TransactionAction,
};

use vstd::prelude::*;

verus! {

/// Wei in one gwei, the unit in which transactions give their prices.
pub const GWEI: u64 = 1_000_000_000;

/// Gas that every transaction pays.
pub const BASE_GAS_COUNT: u64 = 21_000;

/// Gas that a transaction pays on top for creating a contract.
pub const CONTRACT_CREATION_GAS: u64 = 32_000;

} // verus!
