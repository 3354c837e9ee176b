//! The cost schedule: what a transaction costs before its first instruction
//! runs.

use vstd::prelude::*;

verus! {

/// The part of a hard fork's gas schedule that prices a transaction as a
/// whole.
#[derive(Debug, Clone, Copy, PartialEq, Eq)]
pub struct Config {
    /// Gas paid by a transaction that creates a contract.
    pub gas_transaction_create: u64,
    /// Gas paid by a transaction that calls.
    pub gas_transaction_call: u64,
    /// Gas paid for each zero byte of the data.
    pub gas_transaction_zero_data: u64,
    /// Gas paid for each non-zero byte of the data.
    pub gas_transaction_non_zero_data: u64,
    /// Gas paid for each address of the access list.
    pub gas_access_list_address: u64,
    /// Gas paid for each storage key of the access list.
    pub gas_access_list_storage_key: u64,
    /// The limit on the size of init code, where the fork has one and so
    /// charges for init code by the word.
    pub max_initcode_size: Option<usize>,
}

/// The schedule of the London hard fork.
pub open spec fn london_spec() -> Config {
    Config {
        gas_transaction_create: 53000,
        gas_transaction_call: 21000,
        gas_transaction_zero_data: 4,
        gas_transaction_non_zero_data: 16,
        gas_access_list_address: 2400,
        gas_access_list_storage_key: 1900,
        max_initcode_size: None,
    }
}

/// Trusted: calls `evm_runtime::Config::london` and keeps the seven fields
/// that price a transaction; the contract states the values that the
/// function sets them to.
#[verifier::external_body]
fn london_config() -> (r: Config)
    ensures
        r == london_spec(),
{
    let config = evm_runtime::Config::london();
    Config {
        gas_transaction_create: config.gas_transaction_create,
        gas_transaction_call: config.gas_transaction_call,
        gas_transaction_zero_data: config.gas_transaction_zero_data,
        gas_transaction_non_zero_data: config.gas_transaction_non_zero_data,
        gas_access_list_address: config.gas_access_list_address,
        gas_access_list_storage_key: config.gas_access_list_storage_key,
        max_initcode_size: config.max_initcode_size,
    }
}

impl Config {
    /// The schedule of the London hard fork.
    pub fn london() -> (r: Config)
        ensures
            r == london_spec(),
    {
        london_config()
    }
}

} // verus!
