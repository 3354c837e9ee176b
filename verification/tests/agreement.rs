use evm_runtime::ExitError;
use gas_fee_estimator::fee_estimator::gas_used_estimator::{Error, GasUsedEstimator};
use gas_fee_estimator::fee_estimator::schedule::Config;
use gas_fee_estimator::fee_estimator::transaction_cost::TransactionCost;
use gas_fee_estimator::fee_estimator::{
    AccessListItem, EIP2930Transaction, Transaction, TransactionAction,
};
use gas_fee_estimator::uint256::U256;
use primitive_types::{H160, H256};

// The same metering done with the gasometer of the `evm-gasometer` crate.

fn metered_opcode(opcode: evm_disassembler::Opcode) -> evm_runtime::Opcode {
    match opcode {
        evm_disassembler::Opcode::BLOBBASEFEE => evm_runtime::Opcode::BASEFEE,
        evm_disassembler::Opcode::BLOBHASH | evm_disassembler::Opcode::INVALID => {
            evm_runtime::Opcode::INVALID
        }
        known => {
            let byte = (0..=255u8).find(|byte| evm_disassembler::Opcode::from_byte(*byte) == known);
            evm_runtime::Opcode(byte.unwrap())
        }
    }
}

fn gasometer_total(
    gas_limit: u64,
    code: &[u8],
    create: bool,
    access_list: &[(H160, Vec<H256>)],
) -> Result<u64, ExitError> {
    let config = evm_runtime::Config::london();
    let mut gasometer = evm_gasometer::Gasometer::new(gas_limit, &config);
    gasometer.record_cost(21_000)?;
    if create && !code.is_empty() {
        gasometer.record_cost(32_000)?;
    }
    let cost = if create {
        evm_gasometer::create_transaction_cost(code, access_list)
    } else {
        evm_gasometer::call_transaction_cost(code, access_list)
    };
    gasometer.record_transaction(cost)?;
    for operation in evm_disassembler::disassemble_bytes(code.to_vec()).unwrap() {
        if let Some(cost) = evm_gasometer::static_opcode_cost(metered_opcode(operation.opcode)) {
            gasometer.record_cost(cost)?;
        }
    }
    Ok(gasometer.total_used_gas())
}

fn estimated(
    gas_limit: u64,
    code: &[u8],
    create: bool,
    access_list: &[(H160, Vec<H256>)],
) -> Result<u64, Error> {
    let transaction = Transaction::EIP2930(EIP2930Transaction {
        gas_price: U256::from_u64(1),
        gas_limit: U256::from_u64(gas_limit),
        input: hex::encode(code),
        action: if create {
            TransactionAction::Create
        } else {
            TransactionAction::Call(H160::zero())
        },
        access_list: access_list
            .iter()
            .map(|(address, keys)| AccessListItem { address: *address, storage_keys: keys.clone() })
            .collect(),
    });
    GasUsedEstimator::new(Config::london(), gas_limit).estimate(transaction)
}

fn assert_agreement(gas_limit: u64, code: &[u8], create: bool, list: &[(H160, Vec<H256>)]) {
    let ours = estimated(gas_limit, code, create, list);
    match (gasometer_total(gas_limit, code, create, list), ours) {
        (Ok(expected), Ok(total)) => assert_eq!(total, expected, "code {}", hex::encode(code)),
        (Err(ExitError::OutOfGas), Err(Error::GasLimitExceeded { limit, .. })) => {
            assert_eq!(limit, gas_limit)
        }
        (expected, got) => panic!("code {}: {expected:?} and {got:?}", hex::encode(code)),
    }
}

fn sample_codes() -> Vec<Vec<u8>> {
    let mut codes: Vec<Vec<u8>> = vec![
        vec![],
        hex::decode("60606040526040").unwrap(),
        hex::decode("608060405260043610603f57600035").unwrap(),
        hex::decode("7f").unwrap(),
        hex::decode("61ff").unwrap(),
        hex::decode("0000000000").unwrap(),
    ];
    // a run of pseudo-random bytes, cut at every length up to 200
    let mut state: u32 = 0x2545_f491;
    let mut bytes = Vec::new();
    for _ in 0..200 {
        state = state.wrapping_mul(1_664_525).wrapping_add(1_013_904_223);
        bytes.push((state >> 24) as u8);
        codes.push(bytes.clone());
    }
    codes
}

fn sample_access_lists() -> Vec<Vec<(H160, Vec<H256>)>> {
    vec![
        vec![],
        vec![(H160::repeat_byte(1), vec![])],
        vec![
            (H160::repeat_byte(1), vec![H256::repeat_byte(1), H256::repeat_byte(2)]),
            (H160::repeat_byte(2), vec![H256::zero()]),
            (H160::repeat_byte(1), vec![H256::repeat_byte(3)]),
        ],
    ]
}

#[test]
fn single_instructions_agree_with_the_gasometer() {
    for opcode in 0..=255u8 {
        assert_agreement(u64::MAX, &[opcode], false, &[]);
        assert_agreement(u64::MAX, &[opcode], true, &[]);
        assert_agreement(u64::MAX, &[opcode, 0x01, 0x02], false, &[]);
    }
}

#[test]
fn sample_codes_agree_with_the_gasometer() {
    for code in sample_codes() {
        for list in sample_access_lists() {
            assert_agreement(u64::MAX, &code, false, &list);
            assert_agreement(u64::MAX, &code, true, &list);
        }
    }
}

#[test]
fn gas_limits_agree_with_the_gasometer() {
    let code = hex::decode("608060405260043610603f57600035").unwrap();
    for create in [false, true] {
        let total = gasometer_total(u64::MAX, &code, create, &[]).unwrap();
        for gas_limit in [0, 20_999, 21_000, 52_999, 53_000, 74_000, total - 1, total, total + 1] {
            assert_agreement(gas_limit, &code, create, &[]);
        }
        for gas_limit in (total - 40)..=total {
            assert_agreement(gas_limit, &code, create, &[]);
        }
    }
}

#[test]
fn transaction_gas_agrees_with_the_gasometer() {
    let config = evm_runtime::Config::london();
    for (zero, non_zero, addresses, keys) in
        [(0, 0, 0, 0), (1, 0, 0, 0), (0, 1, 0, 0), (0, 0, 1, 0), (0, 0, 0, 1), (17, 5, 3, 11)]
    {
        let mut gasometer = evm_gasometer::Gasometer::new(u64::MAX, &config);
        gasometer
            .record_transaction(evm_gasometer::TransactionCost::Call {
                zero_data_len: zero,
                non_zero_data_len: non_zero,
                access_list_address_len: addresses,
                access_list_storage_len: keys,
            })
            .unwrap();
        let cost = TransactionCost::Call {
            zero_data_len: zero,
            non_zero_data_len: non_zero,
            access_list_address_len: addresses,
            access_list_storage_len: keys,
        };
        assert_eq!(Config::london().transaction_gas(cost), gasometer.total_used_gas());

        let mut gasometer = evm_gasometer::Gasometer::new(u64::MAX, &config);
        gasometer
            .record_transaction(evm_gasometer::TransactionCost::Create {
                zero_data_len: zero,
                non_zero_data_len: non_zero,
                access_list_address_len: addresses,
                access_list_storage_len: keys,
                initcode_cost: 6,
            })
            .unwrap();
        let cost = TransactionCost::Create {
            zero_data_len: zero,
            non_zero_data_len: non_zero,
            access_list_address_len: addresses,
            access_list_storage_len: keys,
            initcode_cost: 6,
        };
        assert_eq!(Config::london().transaction_gas(cost), gasometer.total_used_gas());
    }
}

#[test]
fn init_code_is_charged_where_the_schedule_limits_it() {
    let config = evm_runtime::Config::shanghai();
    let mut gasometer = evm_gasometer::Gasometer::new(u64::MAX, &config);
    gasometer
        .record_transaction(evm_gasometer::TransactionCost::Create {
            zero_data_len: 2,
            non_zero_data_len: 3,
            access_list_address_len: 1,
            access_list_storage_len: 1,
            initcode_cost: 6,
        })
        .unwrap();
    let own = Config {
        gas_transaction_create: config.gas_transaction_create,
        gas_transaction_call: config.gas_transaction_call,
        gas_transaction_zero_data: config.gas_transaction_zero_data,
        gas_transaction_non_zero_data: config.gas_transaction_non_zero_data,
        gas_access_list_address: config.gas_access_list_address,
        gas_access_list_storage_key: config.gas_access_list_storage_key,
        max_initcode_size: config.max_initcode_size,
    };
    let cost = TransactionCost::Create {
        zero_data_len: 2,
        non_zero_data_len: 3,
        access_list_address_len: 1,
        access_list_storage_len: 1,
        initcode_cost: 6,
    };
    assert_eq!(own.transaction_gas(cost), gasometer.total_used_gas());
}
