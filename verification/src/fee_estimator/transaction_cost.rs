//! The intrinsic cost of a transaction: what its data and its access list
//! cost, whatever its instructions do.

use primitive_types::{H160, H256};
use vstd::prelude::*;

use super::estimator::AccessListItem;
use super::schedule::Config;

verus! {

/// What the intrinsic cost of a transaction is computed from.
#[derive(Debug, Clone, Copy, PartialEq, Eq)]
pub enum TransactionCost {
    /// The transaction calls.
    Call {
        /// Number of zero bytes in the data.
        zero_data_len: usize,
        /// Number of non-zero bytes in the data.
        non_zero_data_len: usize,
        /// Number of addresses in the access list.
        access_list_address_len: usize,
        /// Number of storage keys in the access list, over all addresses.
        access_list_storage_len: usize,
    },
    /// The transaction creates a contract.
    Create {
        /// Number of zero bytes in the data.
        zero_data_len: usize,
        /// Number of non-zero bytes in the data.
        non_zero_data_len: usize,
        /// Number of addresses in the access list.
        access_list_address_len: usize,
        /// Number of storage keys in the access list, over all addresses.
        access_list_storage_len: usize,
        /// Cost of the init code: 2 for each word of 32 bytes, the last one
        /// counted in full.
        initcode_cost: u64,
    },
}

/// The number of zero bytes in `data`.
pub open spec fn zero_bytes(data: Seq<u8>) -> nat
    decreases data.len(),
{
    if data.len() == 0 {
        0
    } else {
        zero_bytes(data.drop_last()) + if data.last() == 0 {
            1nat
        } else {
            0nat
        }
    }
}

/// The number of storage keys in `access_list`, over all its addresses.
pub open spec fn storage_key_count(access_list: Seq<AccessListItem>) -> nat
    decreases access_list.len(),
{
    if access_list.len() == 0 {
        0
    } else {
        storage_key_count(access_list.drop_last()) + access_list.last().storage_keys@.len()
    }
}

/// The cost of init code of `len` bytes.
pub open spec fn init_code_cost(len: nat) -> nat {
    2 * ((len + 31) / 32)
}

/// What the intrinsic cost of a call with this data and access list is
/// computed from.
pub open spec fn call_cost(data: Seq<u8>, access_list: Seq<AccessListItem>) -> TransactionCost {
    TransactionCost::Call {
        zero_data_len: zero_bytes(data) as usize,
        non_zero_data_len: (data.len() - zero_bytes(data)) as usize,
        access_list_address_len: access_list.len() as usize,
        access_list_storage_len: storage_key_count(access_list) as usize,
    }
}

/// What the intrinsic cost of a contract creation with this data and access
/// list is computed from.
pub open spec fn create_cost(data: Seq<u8>, access_list: Seq<AccessListItem>) -> TransactionCost {
    TransactionCost::Create {
        zero_data_len: zero_bytes(data) as usize,
        non_zero_data_len: (data.len() - zero_bytes(data)) as usize,
        access_list_address_len: access_list.len() as usize,
        access_list_storage_len: storage_key_count(access_list) as usize,
        initcode_cost: init_code_cost(data.len()) as u64,
    }
}

/// The intrinsic gas of a transaction under `config`: a base amount that
/// depends on the action, an amount for each byte of data, each address and
/// each storage key, and for a creation the cost of the init code where the
/// schedule limits its size.
pub open spec fn intrinsic_gas(config: Config, cost: TransactionCost) -> nat {
    match cost {
        TransactionCost::Call {
            zero_data_len,
            non_zero_data_len,
            access_list_address_len,
            access_list_storage_len,
        } => (config.gas_transaction_call + zero_data_len * config.gas_transaction_zero_data
            + non_zero_data_len * config.gas_transaction_non_zero_data + access_list_address_len
            * config.gas_access_list_address + access_list_storage_len
            * config.gas_access_list_storage_key) as nat,
        TransactionCost::Create {
            zero_data_len,
            non_zero_data_len,
            access_list_address_len,
            access_list_storage_len,
            initcode_cost,
        } => (config.gas_transaction_create + zero_data_len * config.gas_transaction_zero_data
            + non_zero_data_len * config.gas_transaction_non_zero_data + access_list_address_len
            * config.gas_access_list_address + access_list_storage_len
            * config.gas_access_list_storage_key + if config.max_initcode_size is Some {
            initcode_cost as int
        } else {
            0
        }) as nat,
    }
}

/// `amount`, clamped at the largest gas amount that 64 bits hold.
pub open spec fn saturated(amount: nat) -> u64 {
    if amount > u64::MAX {
        u64::MAX
    } else {
        amount as u64
    }
}

/// The zero bytes of two runs of data are those of the one and those of the
/// other; none of the counts exceeds the length.
pub proof fn lemma_zero_bytes_concat(data: Seq<u8>, more: Seq<u8>)
    ensures
        zero_bytes(data + more) == zero_bytes(data) + zero_bytes(more),
        zero_bytes(more) <= more.len(),
    decreases more.len(),
{
    if more.len() == 0 {
        assert(data + more =~= data);
    } else {
        lemma_zero_bytes_concat(data, more.drop_last());
        assert((data + more).drop_last() =~= data + more.drop_last());
    }
}

/// Taking an item out of an access list takes its storage keys out of the
/// count, and nothing else.
pub proof fn lemma_storage_key_count_remove(access_list: Seq<AccessListItem>, i: int)
    requires
        0 <= i < access_list.len(),
    ensures
        storage_key_count(access_list) == storage_key_count(access_list.remove(i))
            + access_list[i].storage_keys@.len(),
    decreases access_list.len(),
{
    if i == access_list.len() - 1 {
        assert(access_list.remove(i) =~= access_list.drop_last());
    } else {
        lemma_storage_key_count_remove(access_list.drop_last(), i);
        assert(access_list.remove(i).drop_last() =~= access_list.drop_last().remove(i));
    }
}

/// The order of an access list does not matter to its cost: two lists that
/// hold the same items, each as often, have as many addresses and as many
/// storage keys.
pub proof fn lemma_access_list_order(
    access_list: Seq<AccessListItem>,
    reordered: Seq<AccessListItem>,
)
    requires
        access_list.to_multiset() == reordered.to_multiset(),
    ensures
        access_list.len() == reordered.len(),
        storage_key_count(access_list) == storage_key_count(reordered),
    decreases access_list.len(),
{
    access_list.to_multiset_ensures();
    reordered.to_multiset_ensures();
    if access_list.len() > 0 {
        let item = access_list.last();
        let shorter = access_list.drop_last();
        shorter.to_multiset_ensures();
        assert(shorter.push(item) =~= access_list);
        assert(access_list.to_multiset() =~= shorter.to_multiset().insert(item));
        assert(reordered.to_multiset().count(item) > 0);
        assert(reordered.contains(item));
        let i = choose|i: int| 0 <= i < reordered.len() && reordered[i] == item;
        assert(reordered.remove(i).to_multiset() =~= reordered.to_multiset().remove(item));
        assert(shorter.to_multiset() =~= reordered.remove(i).to_multiset());
        lemma_access_list_order(shorter, reordered.remove(i));
        lemma_storage_key_count_remove(reordered, i);
    }
}

/// Appending bytes to the data of a transaction never lowers its intrinsic
/// gas.
pub proof fn lemma_intrinsic_gas_monotonic(
    config: Config,
    is_create: bool,
    data: Seq<u8>,
    more: Seq<u8>,
    access_list: Seq<AccessListItem>,
)
    requires
        data.len() + more.len() + 31 <= usize::MAX,
    ensures
        !is_create ==> intrinsic_gas(config, call_cost(data, access_list)) <= intrinsic_gas(
            config,
            call_cost(data + more, access_list),
        ),
        is_create ==> intrinsic_gas(config, create_cost(data, access_list)) <= intrinsic_gas(
            config,
            create_cost(data + more, access_list),
        ),
{
    lemma_zero_bytes_concat(data, more);
    lemma_zero_bytes_concat(Seq::empty(), data);
    assert(Seq::<u8>::empty() + data =~= data);
    let zero = zero_bytes(data);
    let more_zero = zero_bytes(more);
    let per_zero = config.gas_transaction_zero_data;
    let per_non_zero = config.gas_transaction_non_zero_data;
    assert(zero * per_zero <= (zero + more_zero) * per_zero) by (nonlinear_arith);
    assert((data.len() - zero) * per_non_zero <= (data.len() + more.len() - zero - more_zero)
        * per_non_zero) by (nonlinear_arith)
        requires
            more_zero <= more.len(),
            zero <= data.len(),
    ;
    assert(init_code_cost(data.len()) <= init_code_cost((data + more).len()));
}

/// Trusted: calls `evm_gasometer::call_transaction_cost`, handing it each
/// item of the access list as a pair of address and keys. That function
/// counts the zero bytes of the data, the remaining bytes, the items of the
/// access list and, summed over the items, their storage keys.
#[verifier::external_body]
pub(crate) fn call_transaction_cost(data: &Vec<u8>, access_list: &Vec<AccessListItem>) -> (r:
    TransactionCost)
    requires
        storage_key_count(access_list@) <= usize::MAX,
    ensures
        r == call_cost(data@, access_list@),
{
    let list: Vec<(H160, Vec<H256>)> =
        access_list.iter().map(|item| (item.address, item.storage_keys.clone())).collect();
    match evm_gasometer::call_transaction_cost(data, &list) {
        evm_gasometer::TransactionCost::Call { zero_data_len, non_zero_data_len, access_list_address_len, access_list_storage_len } =>
            TransactionCost::Call { zero_data_len, non_zero_data_len, access_list_address_len, access_list_storage_len },
        evm_gasometer::TransactionCost::Create { zero_data_len, non_zero_data_len, access_list_address_len, access_list_storage_len, initcode_cost } =>
            TransactionCost::Create { zero_data_len, non_zero_data_len, access_list_address_len, access_list_storage_len, initcode_cost },
    }
}

/// Trusted: calls `evm_gasometer::create_transaction_cost`, handing it each
/// item of the access list as a pair of address and keys. That function
/// counts as for a call, and adds the init code cost: twice the number of
/// 32-byte words of the data, rounded up.
#[verifier::external_body]
pub(crate) fn create_transaction_cost(data: &Vec<u8>, access_list: &Vec<AccessListItem>) -> (r:
    TransactionCost)
    requires
        storage_key_count(access_list@) <= usize::MAX,
        data@.len() + 31 <= u64::MAX,
    ensures
        r == create_cost(data@, access_list@),
{
    let list: Vec<(H160, Vec<H256>)> =
        access_list.iter().map(|item| (item.address, item.storage_keys.clone())).collect();
    match evm_gasometer::create_transaction_cost(data, &list) {
        evm_gasometer::TransactionCost::Call { zero_data_len, non_zero_data_len, access_list_address_len, access_list_storage_len } =>
            TransactionCost::Call { zero_data_len, non_zero_data_len, access_list_address_len, access_list_storage_len },
        evm_gasometer::TransactionCost::Create { zero_data_len, non_zero_data_len, access_list_address_len, access_list_storage_len, initcode_cost } =>
            TransactionCost::Create { zero_data_len, non_zero_data_len, access_list_address_len, access_list_storage_len, initcode_cost },
    }
}

/// `total` plus `count` times `unit`, clamped at the largest `u64`.
fn add_units(total: u64, count: usize, unit: u64) -> (r: u64)
    ensures
        r == saturated((total + count * unit) as nat),
{
    assert(count * unit <= 0xffff_ffff_ffff_ffff * 0xffff_ffff_ffff_ffff) by (nonlinear_arith)
        requires
            count <= 0xffff_ffff_ffff_ffff,
            unit <= 0xffff_ffff_ffff_ffff,
    ;
    let sum: u128 = total as u128 + count as u128 * unit as u128;
    if sum > u64::MAX as u128 {
        u64::MAX
    } else {
        sum as u64
    }
}

impl Config {
    /// The intrinsic gas of a transaction under this schedule, clamped at the
    /// largest `u64`.
    pub fn transaction_gas(&self, cost: TransactionCost) -> (r: u64)
        ensures
            r == saturated(intrinsic_gas(*self, cost)),
    {
        match cost {
            TransactionCost::Call {
                zero_data_len,
                non_zero_data_len,
                access_list_address_len,
                access_list_storage_len,
            } => {
                let gas = add_units(
                    self.gas_transaction_call,
                    zero_data_len,
                    self.gas_transaction_zero_data,
                );
                let gas = add_units(gas, non_zero_data_len, self.gas_transaction_non_zero_data);
                let gas = add_units(gas, access_list_address_len, self.gas_access_list_address);
                add_units(gas, access_list_storage_len, self.gas_access_list_storage_key)
            },
            TransactionCost::Create {
                zero_data_len,
                non_zero_data_len,
                access_list_address_len,
                access_list_storage_len,
                initcode_cost,
            } => {
                let gas = add_units(
                    self.gas_transaction_create,
                    zero_data_len,
                    self.gas_transaction_zero_data,
                );
                let gas = add_units(gas, non_zero_data_len, self.gas_transaction_non_zero_data);
                let gas = add_units(gas, access_list_address_len, self.gas_access_list_address);
                let gas = add_units(gas, access_list_storage_len, self.gas_access_list_storage_key);
                if self.max_initcode_size.is_some() {
                    add_units(gas, 1, initcode_cost)
                } else {
                    gas
                }
            },
        }
    }
}

} // verus!
