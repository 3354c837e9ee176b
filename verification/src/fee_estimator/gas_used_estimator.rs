//! The gas that a transaction uses, metered against its gas limit.

use hex::FromHexError;
use vstd::prelude::*;
use vstd::string::StrSliceExecFns;

use super::bytecode::{
    disassemble, get_evm_runtime_opcode, instruction_cost_spec, instruction_costs,
    instruction_offsets, lemma_instruction_costs_extend, lemma_instruction_offsets_in_code,
    static_opcode_cost, MAX_CODE_LEN,
};
use super::estimator::{
    AccessListItem, EIP1559Transaction, EIP2930Transaction, Transaction, TransactionAction,
};
use super::gas_meter::{
    lemma_metered_stops, lemma_metered_total, lemma_total_concat, metered, total, GasMeter,
};
use super::hex_text::{decode_hex, decoded_hex, is_hex_text};
use super::schedule::Config;
use super::transaction_cost::{
    call_cost, call_transaction_cost, create_cost, create_transaction_cost, intrinsic_gas,
    lemma_access_list_order, lemma_intrinsic_gas_monotonic, saturated, storage_key_count,
    zero_bytes, TransactionCost,
};
use super::{BASE_GAS_COUNT, CONTRACT_CREATION_GAS};

verus! {

/// Why the gas used could not be estimated.
#[derive(Debug)]
pub enum Error {
    /// Recording `attempted_increment` on top of `current_total` would have
    /// exceeded the gas limit.
    GasLimitExceeded { current_total: u64, limit: u64, attempted_increment: u64 },
    /// The input could not be disassembled.
    EvmDisassembler(eyre::Report),
    /// The input is not hex text.
    HexDecode(FromHexError),
}

/// The intrinsic gas recorded for a transaction with this data and access
/// list, clamped at the largest `u64`.
pub open spec fn transaction_gas_spec(
    config: Config,
    is_create: bool,
    data: Seq<u8>,
    access_list: Seq<AccessListItem>,
) -> u64 {
    saturated(
        intrinsic_gas(
            config,
            if is_create {
                create_cost(data, access_list)
            } else {
                call_cost(data, access_list)
            },
        ),
    )
}

/// What comes before the instructions: the base cost, the creation
/// surcharge where a contract is created from non-empty code, and the
/// intrinsic gas.
pub open spec fn upfront_costs(
    config: Config,
    is_create: bool,
    data: Seq<u8>,
    access_list: Seq<AccessListItem>,
) -> Seq<u64> {
    seq![BASE_GAS_COUNT] + if is_create && data.len() > 0 {
        seq![CONTRACT_CREATION_GAS]
    } else {
        Seq::empty()
    } + seq![transaction_gas_spec(config, is_create, data, access_list)]
}

/// The costs that are recorded for a transaction, in the order in which they
/// are recorded: the upfront costs, then the cost of each instruction of the
/// data.
pub open spec fn gas_costs(
    config: Config,
    is_create: bool,
    data: Seq<u8>,
    access_list: Seq<AccessListItem>,
) -> Seq<u64> {
    upfront_costs(config, is_create, data, access_list) + instruction_costs(data)
}

/// Whether the input of `transaction` decodes to code that the disassembler
/// can address, and its storage keys can be counted.
pub open spec fn is_meterable(transaction: Transaction) -> bool {
    &&& transaction.input_text().len() / 2 <= MAX_CODE_LEN
    &&& storage_key_count(transaction.declared_access_list()) <= usize::MAX
}

/// The result of metering `transaction` under `config` against `gas_limit`,
/// where its input is hex text.
pub open spec fn gas_used(config: Config, gas_limit: u64, transaction: Transaction) -> Result<
    u64,
    Error,
> {
    metered(
        gas_limit,
        gas_costs(
            config,
            transaction.is_create(),
            decoded_hex(transaction.input_text()),
            transaction.declared_access_list(),
        ),
    )
}

/// Decodes the hex text of a transaction's input.
///
/// Fails with `HexDecode` exactly when `input` is not hex text.
pub fn decode_input(input: &str) -> (r: Result<Vec<u8>, Error>)
    ensures
        !is_hex_text(input@) ==> r matches Err(Error::HexDecode(_)),
        is_hex_text(input@) ==> (r matches Ok(bytes) && bytes@ == decoded_hex(input@)),
{
    match decode_hex(input) {
        Ok(bytes) => Ok(bytes),
        Err(error) => Err(Error::HexDecode(error)),
    }
}

/// The storage keys of a shorter access list are among those of a longer
/// one that begins with it.
proof fn lemma_storage_key_count_prefix(access_list: Seq<AccessListItem>, n: int)
    requires
        0 <= n <= access_list.len(),
    ensures
        storage_key_count(access_list.take(n)) <= storage_key_count(access_list),
    decreases access_list.len() - n,
{
    if n < access_list.len() {
        lemma_storage_key_count_prefix(access_list, n + 1);
        assert(access_list.take(n + 1).drop_last() =~= access_list.take(n));
    } else {
        assert(access_list.take(n) =~= access_list);
    }
}

/// Whether the storage keys of `access_list` can be counted in a `usize`.
fn storage_keys_fit(access_list: &Vec<AccessListItem>) -> (r: bool)
    ensures
        r == (storage_key_count(access_list@) <= usize::MAX),
{
    let mut count: usize = 0;
    let mut i: usize = 0;
    assert(access_list@.take(0) =~= Seq::<AccessListItem>::empty());
    while i < access_list.len()
        invariant
            i <= access_list.len(),
            count == storage_key_count(access_list@.take(i as int)),
        decreases access_list.len() - i,
    {
        proof {
            assert(access_list@.take(i + 1).drop_last() =~= access_list@.take(i as int));
            lemma_storage_key_count_prefix(access_list@, i + 1);
        }
        match count.checked_add(access_list[i].storage_keys.len()) {
            Some(sum) => {
                count = sum;
            },
            None => {
                return false;
            },
        }
        i = i + 1;
    }
    assert(access_list@.take(i as int) =~= access_list@);
    true
}

/// Records `cost`, where `recorded` is what the meter has taken so far.
fn record(gasometer: &mut GasMeter, cost: u64, Ghost(recorded): Ghost<Seq<u64>>) -> (r: Result<
    (),
    Error,
>)
    requires
        metered(old(gasometer).limit(), recorded) == Ok::<u64, Error>(old(gasometer).used()),
    ensures
        final(gasometer).limit() == old(gasometer).limit(),
        r is Ok ==> metered(final(gasometer).limit(), recorded.push(cost)) == Ok::<u64, Error>(
            final(gasometer).used(),
        ),
        r matches Err(error) ==> metered(final(gasometer).limit(), recorded.push(cost)) == Err::<
            u64,
            Error,
        >(error),
{
    assert(recorded.push(cost).drop_last() =~= recorded);
    gasometer.record_cost(cost)
}

/// Estimates the gas that transactions use under one cost schedule and one
/// gas limit.
pub struct GasUsedEstimator {
    config: Config,
    gas_limit: u64,
}

impl GasUsedEstimator {
    /// The cost schedule of this estimator.
    pub closed spec fn config(self) -> Config {
        self.config
    }

    /// The gas limit of this estimator.
    pub closed spec fn gas_limit(self) -> u64 {
        self.gas_limit
    }

    /// An estimator that meters under `config` against `gas_limit`.
    pub fn new(config: Config, gas_limit: u64) -> (r: Self)
        ensures
            r.config() == config,
            r.gas_limit() == gas_limit,
    {
        Self { config, gas_limit }
    }

    /// Whether `transaction` meets what [`GasUsedEstimator::estimate`] asks
    /// of it.
    pub fn accepts(transaction: &Transaction) -> (r: bool)
        ensures
            r == is_meterable(*transaction),
    {
        match transaction {
            Transaction::Legacy(tx) => tx.input.as_str().unicode_len() / 2 <= MAX_CODE_LEN,
            Transaction::EIP2930(tx) => tx.input.as_str().unicode_len() / 2 <= MAX_CODE_LEN
                && storage_keys_fit(&tx.access_list),
            Transaction::EIP1559(tx) => tx.input.as_str().unicode_len() / 2 <= MAX_CODE_LEN
                && storage_keys_fit(&tx.access_list),
        }
    }

    /// Estimates the gas that `transaction` uses: the base cost, the
    /// creation surcharge, the intrinsic gas and the static cost of each
    /// instruction of its input, recorded in that order against the gas
    /// limit.
    ///
    /// Fails with `HexDecode` exactly when the input is not hex text, and
    /// otherwise with `GasLimitExceeded` at the first cost that would take
    /// the total over the limit.
    pub fn estimate(&self, transaction: Transaction) -> (r: Result<u64, Error>)
        requires
            is_meterable(transaction),
        ensures
            !is_hex_text(transaction.input_text()) ==> r matches Err(Error::HexDecode(_)),
            is_hex_text(transaction.input_text()) ==> r == gas_used(
                self.config(),
                self.gas_limit(),
                transaction,
            ),
            r matches Ok(total) ==> total <= self.gas_limit(),
    {
        match &transaction {
            Transaction::Legacy(tx) => {
                let access_list: Vec<AccessListItem> = Vec::new();
                self.meter(tx.input.as_str(), &tx.action, &access_list)
            },
            Transaction::EIP2930(tx) => self.meter(
                tx.input.as_str(),
                &tx.action,
                &tx.access_list,
            ),
            Transaction::EIP1559(tx) => self.meter(
                tx.input.as_str(),
                &tx.action,
                &tx.access_list,
            ),
        }
    }

    fn meter(&self, input: &str, action: &TransactionAction, access_list: &Vec<AccessListItem>) -> (r:
        Result<u64, Error>)
        requires
            input@.len() / 2 <= MAX_CODE_LEN,
            storage_key_count(access_list@) <= usize::MAX,
        ensures
            !is_hex_text(input@) ==> r matches Err(Error::HexDecode(_)),
            is_hex_text(input@) ==> r == metered(
                self.gas_limit,
                gas_costs(self.config, *action is Create, decoded_hex(input@), access_list@),
            ),
            r matches Ok(total) ==> total <= self.gas_limit,
    {
        let tx_input = decode_input(input)?;
        let is_create = match action {
            TransactionAction::Create => true,
            TransactionAction::Call(_) => false,
        };
        let ghost upfront = upfront_costs(self.config, is_create, tx_input@, access_list@);
        let ghost costs = gas_costs(self.config, is_create, tx_input@, access_list@);
        let ghost mut recorded: Seq<u64> = Seq::empty();
        let mut gasometer = GasMeter::new(self.gas_limit);

        // the base cost
        let recording = record(&mut gasometer, BASE_GAS_COUNT, Ghost(recorded));
        proof {
            recorded = recorded.push(BASE_GAS_COUNT);
        }
        if let Err(error) = recording {
            proof {
                assert(costs =~= recorded + costs.skip(1));
                lemma_metered_stops(self.gas_limit, recorded, costs.skip(1));
            }
            return Err(error);
        }

        // the creation surcharge, where a contract is created from code
        if is_create && tx_input.len() > 0 {
            let recording = record(&mut gasometer, CONTRACT_CREATION_GAS, Ghost(recorded));
            proof {
                recorded = recorded.push(CONTRACT_CREATION_GAS);
            }
            if let Err(error) = recording {
                proof {
                    assert(costs =~= recorded + costs.skip(2));
                    lemma_metered_stops(self.gas_limit, recorded, costs.skip(2));
                }
                return Err(error);
            }
        }

        // the intrinsic gas
        let tx_cost = match action {
            TransactionAction::Call(_) => call_transaction_cost(&tx_input, access_list),
            TransactionAction::Create => create_transaction_cost(&tx_input, access_list),
        };
        let tx_gas = self.config.transaction_gas(tx_cost);
        let recording = record(&mut gasometer, tx_gas, Ghost(recorded));
        proof {
            recorded = recorded.push(tx_gas);
            assert(recorded =~= upfront);
        }
        if let Err(error) = recording {
            proof {
                lemma_metered_stops(self.gas_limit, upfront, instruction_costs(tx_input@));
            }
            return Err(error);
        }

        // the static cost of each instruction
        if tx_input.len() > 0 {
            let offsets = match disassemble(&tx_input) {
                Ok(offsets) => offsets,
                Err(error) => {
                    return Err(Error::EvmDisassembler(error));
                },
            };
            proof {
                lemma_instruction_offsets_in_code(tx_input@, 0);
                assert(instruction_costs(tx_input@).take(0) =~= Seq::<u64>::empty());
                assert(upfront + Seq::<u64>::empty() =~= upfront);
            }
            let mut i: usize = 0;
            while i < offsets.len()
                invariant
                    i <= offsets.len(),
                    offsets@.map_values(|offset: u32| offset as int) == instruction_offsets(
                        tx_input@,
                        0,
                    ),
                    forall|k: int|
                        0 <= k < instruction_offsets(tx_input@, 0).len() ==> 0 <= (
                        #[trigger] instruction_offsets(tx_input@, 0)[k]) < tx_input@.len(),
                    gasometer.limit() == self.gas_limit,
                    is_hex_text(input@),
                    costs == gas_costs(
                        self.config,
                        *action is Create,
                        decoded_hex(input@),
                        access_list@,
                    ),
                    costs == upfront + instruction_costs(tx_input@),
                    metered(self.gas_limit, upfront + instruction_costs(tx_input@).take(i as int))
                        == Ok::<u64, Error>(gasometer.used()),
                decreases offsets.len() - i,
            {
                let ghost done = upfront + instruction_costs(tx_input@).take(i as int);
                let ghost all = instruction_costs(tx_input@);
                assert(offsets@.map_values(|offset: u32| offset as int)[i as int]
                    == offsets@[i as int] as int);
                assert(all.len() == offsets@.len());
                let op_code = tx_input[offsets[i] as usize];
                assert(all[i as int] == instruction_cost_spec(op_code));
                assert(upfront + all.take(i + 1) =~= done.push(all[i as int]));
                if let Some(cost) = static_opcode_cost(get_evm_runtime_opcode(op_code)) {
                    if let Err(error) = record(&mut gasometer, cost, Ghost(done)) {
                        proof {
                            assert(costs =~= done.push(cost) + all.skip(i + 1));
                            lemma_metered_stops(self.gas_limit, done.push(cost), all.skip(i + 1));
                        }
                        return Err(error);
                    }
                } else {
                    assert(done.push(0).drop_last() =~= done);
                }
                i = i + 1;
            }
            proof {
                assert(instruction_costs(tx_input@).take(i as int) =~= instruction_costs(
                    tx_input@,
                ));
            }
        } else {
            proof {
                assert(instruction_costs(tx_input@) =~= Seq::<u64>::empty());
                assert(costs =~= upfront);
            }
        }
        Ok(gasometer.total_used_gas())
    }
}

/// A call with empty input is charged the base cost and the intrinsic gas
/// of a call without data, and nothing else: no creation surcharge and no
/// instruction. Without an access list that intrinsic gas is the schedule's
/// amount for a call.
pub proof fn lemma_call_with_empty_input(config: Config, gas_limit: u64, transaction: Transaction)
    requires
        transaction.input_text().len() == 0,
        !transaction.is_create(),
    ensures
        is_hex_text(transaction.input_text()),
        gas_costs(config, false, Seq::empty(), transaction.declared_access_list()) == seq![
            BASE_GAS_COUNT,
            transaction_gas_spec(config, false, Seq::empty(), transaction.declared_access_list()),
        ],
        gas_used(config, gas_limit, transaction) == metered(
            gas_limit,
            seq![
                BASE_GAS_COUNT,
                transaction_gas_spec(
                    config,
                    false,
                    Seq::empty(),
                    transaction.declared_access_list(),
                ),
            ],
        ),
        BASE_GAS_COUNT + transaction_gas_spec(
            config,
            false,
            Seq::empty(),
            transaction.declared_access_list(),
        ) <= gas_limit ==> gas_used(config, gas_limit, transaction) == Ok::<u64, Error>(
            (BASE_GAS_COUNT + transaction_gas_spec(
                config,
                false,
                Seq::empty(),
                transaction.declared_access_list(),
            )) as u64,
        ),
        transaction.declared_access_list().len() == 0 ==> transaction_gas_spec(
            config,
            false,
            Seq::empty(),
            transaction.declared_access_list(),
        ) == config.gas_transaction_call,
{
    let access_list = transaction.declared_access_list();
    let data = decoded_hex(transaction.input_text());
    let costs = seq![BASE_GAS_COUNT, transaction_gas_spec(config, false, Seq::empty(), access_list)];
    assert(data =~= Seq::<u8>::empty());
    assert(instruction_costs(data) =~= Seq::<u64>::empty());
    assert(gas_costs(config, false, Seq::empty(), access_list) =~= costs);
    lemma_metered_total(gas_limit, costs);
    assert(costs.drop_last() =~= seq![BASE_GAS_COUNT]);
    assert(seq![BASE_GAS_COUNT].drop_last() =~= Seq::<u64>::empty());
    assert(total(costs) == BASE_GAS_COUNT + costs[1]) by {
        reveal_with_fuel(total, 3);
    }
    assert(zero_bytes(Seq::<u8>::empty()) == 0);
    if access_list.len() == 0 {
        assert(storage_key_count(access_list) == 0);
        assert(call_cost(Seq::empty(), access_list) == (TransactionCost::Call {
            zero_data_len: 0,
            non_zero_data_len: 0,
            access_list_address_len: 0,
            access_list_storage_len: 0,
        }));
        assert(intrinsic_gas(config, call_cost(Seq::empty(), access_list))
            == config.gas_transaction_call) by (nonlinear_arith)
            requires
                call_cost(Seq::empty(), access_list) == (TransactionCost::Call {
                    zero_data_len: 0,
                    non_zero_data_len: 0,
                    access_list_address_len: 0,
                    access_list_storage_len: 0,
                }),
        ;
    }
}

/// A creation from non-empty code is charged the base cost, then the
/// creation surcharge, then the intrinsic gas, and after these the cost of
/// each instruction: whatever the code, the surcharge is added once and in
/// full.
pub proof fn lemma_creation_surcharge(
    config: Config,
    gas_limit: u64,
    code: Seq<u8>,
    access_list: Seq<AccessListItem>,
)
    requires
        code.len() > 0,
    ensures
        gas_costs(config, true, code, access_list) == seq![
            BASE_GAS_COUNT,
            CONTRACT_CREATION_GAS,
            transaction_gas_spec(config, true, code, access_list),
        ] + instruction_costs(code),
        total(gas_costs(config, true, code, access_list)) == BASE_GAS_COUNT + CONTRACT_CREATION_GAS
            + transaction_gas_spec(config, true, code, access_list) + total(
            instruction_costs(code),
        ),
        metered(gas_limit, gas_costs(config, true, code, access_list)) matches Ok(used) ==> used
            == BASE_GAS_COUNT + CONTRACT_CREATION_GAS + transaction_gas_spec(
            config,
            true,
            code,
            access_list,
        ) + total(instruction_costs(code)),
{
    let upfront = seq![
        BASE_GAS_COUNT,
        CONTRACT_CREATION_GAS,
        transaction_gas_spec(config, true, code, access_list),
    ];
    assert(upfront_costs(config, true, code, access_list) =~= upfront);
    lemma_total_concat(upfront, instruction_costs(code));
    lemma_metered_total(gas_limit, gas_costs(config, true, code, access_list));
    assert(upfront.drop_last() =~= seq![BASE_GAS_COUNT, CONTRACT_CREATION_GAS]);
    assert(seq![BASE_GAS_COUNT, CONTRACT_CREATION_GAS].drop_last() =~= seq![BASE_GAS_COUNT]);
    assert(seq![BASE_GAS_COUNT].drop_last() =~= Seq::<u64>::empty());
    assert(total(upfront) == BASE_GAS_COUNT + CONTRACT_CREATION_GAS + upfront[2]) by {
        reveal_with_fuel(total, 4);
    }
}

/// The sum of the upfront costs.
proof fn lemma_upfront_total(
    config: Config,
    is_create: bool,
    data: Seq<u8>,
    access_list: Seq<AccessListItem>,
)
    ensures
        total(upfront_costs(config, is_create, data, access_list)) == BASE_GAS_COUNT + if is_create
            && data.len() > 0 {
            CONTRACT_CREATION_GAS as int
        } else {
            0
        } + transaction_gas_spec(config, is_create, data, access_list),
{
    let gas = transaction_gas_spec(config, is_create, data, access_list);
    let upfront = upfront_costs(config, is_create, data, access_list);
    assert(seq![BASE_GAS_COUNT].drop_last() =~= Seq::<u64>::empty());
    if is_create && data.len() > 0 {
        assert(upfront =~= seq![BASE_GAS_COUNT, CONTRACT_CREATION_GAS, gas]);
        assert(upfront.drop_last() =~= seq![BASE_GAS_COUNT, CONTRACT_CREATION_GAS]);
        assert(seq![BASE_GAS_COUNT, CONTRACT_CREATION_GAS].drop_last() =~= seq![BASE_GAS_COUNT]);
        assert(total(upfront) == BASE_GAS_COUNT + CONTRACT_CREATION_GAS + gas) by {
            reveal_with_fuel(total, 4);
        }
    } else {
        assert(upfront =~= seq![BASE_GAS_COUNT, gas]);
        assert(upfront.drop_last() =~= seq![BASE_GAS_COUNT]);
        assert(total(upfront) == BASE_GAS_COUNT + gas) by {
            reveal_with_fuel(total, 3);
        }
    }
}

/// Whatever is metered, the gas used is at least the base cost.
pub proof fn lemma_gas_used_at_least_base(
    config: Config,
    gas_limit: u64,
    is_create: bool,
    data: Seq<u8>,
    access_list: Seq<AccessListItem>,
)
    ensures
        metered(gas_limit, gas_costs(config, is_create, data, access_list)) matches Ok(used)
            ==> BASE_GAS_COUNT <= used <= gas_limit,
{
    lemma_upfront_total(config, is_create, data, access_list);
    lemma_total_concat(
        upfront_costs(config, is_create, data, access_list),
        instruction_costs(data),
    );
    lemma_metered_total(gas_limit, gas_costs(config, is_create, data, access_list));
}

/// Appending bytes to the input never lowers the gas: the costs recorded
/// for the longer input sum to no less, so where metering the longer input
/// stays within the gas limit, metering the shorter one does too and gives
/// no more.
pub proof fn lemma_gas_monotonic(
    config: Config,
    gas_limit: u64,
    is_create: bool,
    data: Seq<u8>,
    more: Seq<u8>,
    access_list: Seq<AccessListItem>,
)
    requires
        data.len() + more.len() <= MAX_CODE_LEN,
    ensures
        total(gas_costs(config, is_create, data, access_list)) <= total(
            gas_costs(config, is_create, data + more, access_list),
        ),
        metered(gas_limit, gas_costs(config, is_create, data + more, access_list)) matches Ok(
            longer,
        ) ==> metered(gas_limit, gas_costs(config, is_create, data, access_list)) matches Ok(
            shorter,
        ) && shorter <= longer,
{
    lemma_intrinsic_gas_monotonic(config, is_create, data, more, access_list);
    lemma_upfront_total(config, is_create, data, access_list);
    lemma_upfront_total(config, is_create, data + more, access_list);
    lemma_instruction_costs_extend(data, more);
    let short = instruction_costs(data);
    let long = instruction_costs(data + more);
    assert(long =~= short + long.skip(short.len() as int));
    lemma_total_concat(short, long.skip(short.len() as int));
    lemma_total_concat(upfront_costs(config, is_create, data, access_list), short);
    lemma_total_concat(upfront_costs(config, is_create, data + more, access_list), long);
    lemma_metered_total(gas_limit, gas_costs(config, is_create, data, access_list));
    lemma_metered_total(gas_limit, gas_costs(config, is_create, data + more, access_list));
}

/// A creation with empty input pays no creation surcharge: it is charged
/// the base cost and the intrinsic gas of a creation without data.
pub proof fn lemma_creation_with_empty_input(config: Config, access_list: Seq<AccessListItem>)
    ensures
        gas_costs(config, true, Seq::empty(), access_list) == seq![
            BASE_GAS_COUNT,
            transaction_gas_spec(config, true, Seq::empty(), access_list),
        ],
{
    assert(instruction_costs(Seq::empty()) =~= Seq::<u64>::empty());
    assert(gas_costs(config, true, Seq::empty(), access_list) =~= seq![
        BASE_GAS_COUNT,
        transaction_gas_spec(config, true, Seq::empty(), access_list),
    ]);
}

/// Of an access list only the number of its addresses and the number of its
/// storage keys matter to the gas.
pub proof fn lemma_gas_depends_on_access_list_counts(
    config: Config,
    is_create: bool,
    data: Seq<u8>,
    access_list: Seq<AccessListItem>,
    other: Seq<AccessListItem>,
)
    requires
        access_list.len() == other.len(),
        storage_key_count(access_list) == storage_key_count(other),
    ensures
        gas_costs(config, is_create, data, access_list) == gas_costs(
            config,
            is_create,
            data,
            other,
        ),
{
}

/// The order of the access list does not matter to the gas: two lists that
/// hold the same items, each as often, give the same costs.
pub proof fn lemma_gas_ignores_access_list_order(
    config: Config,
    is_create: bool,
    data: Seq<u8>,
    access_list: Seq<AccessListItem>,
    reordered: Seq<AccessListItem>,
)
    requires
        access_list.to_multiset() == reordered.to_multiset(),
    ensures
        gas_costs(config, is_create, data, access_list) == gas_costs(
            config,
            is_create,
            data,
            reordered,
        ),
{
    lemma_access_list_order(access_list, reordered);
}

/// The gas used does not depend on how a transaction is priced: an EIP-1559
/// transaction uses what an EIP-2930 transaction with the same input, the
/// same kind of action and the same access list uses.
pub proof fn lemma_gas_used_same_for_both_priced_types(
    config: Config,
    gas_limit: u64,
    fee_capped: EIP1559Transaction,
    fee_list: EIP2930Transaction,
)
    requires
        fee_capped.input@ == fee_list.input@,
        fee_capped.action is Create <==> fee_list.action is Create,
        fee_capped.access_list@ == fee_list.access_list@,
    ensures
        gas_used(config, gas_limit, Transaction::EIP1559(fee_capped)) == gas_used(
            config,
            gas_limit,
            Transaction::EIP2930(fee_list),
        ),
{
}

} // verus!
