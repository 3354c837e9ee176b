use gas_fee_estimator::fee_estimator::gas_meter::GasMeter;
use gas_fee_estimator::fee_estimator::gas_used_estimator::{Error, GasUsedEstimator};
use gas_fee_estimator::fee_estimator::schedule::Config;
use gas_fee_estimator::fee_estimator::transaction_cost::TransactionCost;
use gas_fee_estimator::fee_estimator::{
    AccessListItem, EIP1559Transaction, EIP2930Transaction, LegacyTransaction, Transaction,
    TransactionAction, BASE_GAS_COUNT, CONTRACT_CREATION_GAS,
};
use gas_fee_estimator::uint256::U256;
use primitive_types::{H160, H256};

// PUSH1 0x60, PUSH1 0x40, MSTORE, PUSH1 0x40: seven non-zero bytes, three
// instructions with a static cost of 3 each.
const CODE: &str = "60606040526040";

fn call() -> TransactionAction {
    TransactionAction::Call(H160::repeat_byte(0x11))
}

fn legacy(input: &str, action: TransactionAction) -> Transaction {
    Transaction::Legacy(LegacyTransaction {
        gas_price: U256::from_u64(1),
        gas_limit: U256::from_u64(1_000_000),
        input: input.to_string(),
        action,
    })
}

fn access_list() -> Vec<AccessListItem> {
    vec![
        AccessListItem {
            address: H160::repeat_byte(1),
            storage_keys: vec![H256::repeat_byte(1), H256::repeat_byte(2)],
        },
        AccessListItem { address: H160::repeat_byte(2), storage_keys: vec![H256::zero()] },
    ]
}

fn fee_list(input: &str, action: TransactionAction, list: Vec<AccessListItem>) -> Transaction {
    Transaction::EIP2930(EIP2930Transaction {
        gas_price: U256::from_u64(1),
        gas_limit: U256::from_u64(1_000_000),
        input: input.to_string(),
        action,
        access_list: list,
    })
}

fn fee_capped(input: &str, action: TransactionAction, list: Vec<AccessListItem>) -> Transaction {
    Transaction::EIP1559(EIP1559Transaction {
        max_priority_fee_per_gas: U256::from_u64(1),
        max_fee_per_gas: U256::from_u64(100),
        gas_limit: U256::from_u64(1_000_000),
        input: input.to_string(),
        action,
        access_list: list,
    })
}

fn london(gas_limit: u64) -> GasUsedEstimator {
    GasUsedEstimator::new(Config::london(), gas_limit)
}

fn exceeded(result: Result<u64, Error>) -> (u64, u64, u64) {
    match result {
        Err(Error::GasLimitExceeded { current_total, limit, attempted_increment }) => {
            (current_total, limit, attempted_increment)
        }
        other => panic!("expected the gas limit to be exceeded, got {other:?}"),
    }
}

#[test]
fn constants_of_the_schedule() {
    assert_eq!(BASE_GAS_COUNT, 21_000);
    assert_eq!(CONTRACT_CREATION_GAS, 32_000);
}

#[test]
fn london_schedule_values() {
    let config = Config::london();
    assert_eq!(config.gas_transaction_create, 53_000);
    assert_eq!(config.gas_transaction_call, 21_000);
    assert_eq!(config.gas_transaction_zero_data, 4);
    assert_eq!(config.gas_transaction_non_zero_data, 16);
    assert_eq!(config.gas_access_list_address, 2_400);
    assert_eq!(config.gas_access_list_storage_key, 1_900);
    assert_eq!(config.max_initcode_size, None);
}

#[test]
fn transaction_gas_of_a_call() {
    let cost = TransactionCost::Call {
        zero_data_len: 1,
        non_zero_data_len: 2,
        access_list_address_len: 3,
        access_list_storage_len: 4,
    };
    assert_eq!(Config::london().transaction_gas(cost), 21_000 + 4 + 32 + 7_200 + 7_600);
}

#[test]
fn transaction_gas_of_a_creation() {
    let cost = TransactionCost::Create {
        zero_data_len: 1,
        non_zero_data_len: 2,
        access_list_address_len: 3,
        access_list_storage_len: 4,
        initcode_cost: 10,
    };
    // London does not limit init code, and so does not charge for it
    assert_eq!(Config::london().transaction_gas(cost), 53_000 + 4 + 32 + 7_200 + 7_600);
    let mut limited = Config::london();
    limited.max_initcode_size = Some(0xC000);
    assert_eq!(limited.transaction_gas(cost), 53_000 + 4 + 32 + 7_200 + 7_600 + 10);
}

#[test]
fn transaction_gas_saturates() {
    let cost = TransactionCost::Call {
        zero_data_len: usize::MAX,
        non_zero_data_len: usize::MAX,
        access_list_address_len: usize::MAX,
        access_list_storage_len: usize::MAX,
    };
    assert_eq!(Config::london().transaction_gas(cost), u64::MAX);
    let mut steep = Config::london();
    steep.gas_transaction_call = u64::MAX;
    let one_byte = TransactionCost::Call {
        zero_data_len: 1,
        non_zero_data_len: 0,
        access_list_address_len: 0,
        access_list_storage_len: 0,
    };
    assert_eq!(steep.transaction_gas(one_byte), u64::MAX);
}

#[test]
fn meter_records_up_to_the_limit() {
    let mut meter = GasMeter::new(100);
    assert_eq!(meter.total_used_gas(), 0);
    assert!(meter.record_cost(40).is_ok());
    assert!(meter.record_cost(60).is_ok());
    assert_eq!(meter.total_used_gas(), 100);
    assert!(meter.record_cost(0).is_ok());
    assert_eq!(meter.total_used_gas(), 100);
}

#[test]
fn meter_reports_what_would_exceed_the_limit() {
    let mut meter = GasMeter::new(100);
    assert!(meter.record_cost(40).is_ok());
    assert_eq!(exceeded(meter.record_cost(61).map(|_| 0)), (40, 100, 61));
    // nothing was recorded
    assert_eq!(meter.total_used_gas(), 40);
    assert_eq!(exceeded(meter.record_cost(u64::MAX).map(|_| 0)), (40, 100, u64::MAX));
    assert!(meter.record_cost(60).is_ok());
    assert_eq!(meter.total_used_gas(), 100);
}

#[test]
fn call_with_empty_input_uses_base_and_intrinsic_gas() {
    let gas = london(1_000_000).estimate(legacy("", call())).unwrap();
    assert_eq!(gas, 42_000);
    assert_eq!(gas, BASE_GAS_COUNT + Config::london().gas_transaction_call);
}

#[test]
fn creation_with_empty_input_pays_no_surcharge() {
    let gas = london(1_000_000).estimate(legacy("", TransactionAction::Create)).unwrap();
    assert_eq!(gas, 21_000 + 53_000);
}

#[test]
fn call_with_code_pays_for_bytes_and_instructions() {
    let gas = london(1_000_000).estimate(legacy(CODE, call())).unwrap();
    assert_eq!(gas, 21_000 + (21_000 + 7 * 16) + 3 * 3);
}

#[test]
fn creation_with_code_pays_the_surcharge_once() {
    let gas = london(1_000_000).estimate(legacy(CODE, TransactionAction::Create)).unwrap();
    assert_eq!(gas, 21_000 + 32_000 + (53_000 + 7 * 16) + 3 * 3);
    let longer = "6060604052604060016002015b";
    let gas = london(1_000_000).estimate(legacy(longer, TransactionAction::Create)).unwrap();
    // 13 non-zero bytes; PUSH1 x5, ADD, JUMPDEST and MSTORE without a static cost
    assert_eq!(gas, 21_000 + 32_000 + (53_000 + 13 * 16) + (5 * 3 + 3 + 1));
}

#[test]
fn zero_bytes_are_cheaper_and_stop_is_free() {
    let gas = london(1_000_000).estimate(legacy("0000", call())).unwrap();
    assert_eq!(gas, 21_000 + (21_000 + 2 * 4));
}

#[test]
fn immediate_bytes_are_not_instructions() {
    // PUSH2 0x5757: the two bytes behind the push are data, not two JUMPI
    let gas = london(1_000_000).estimate(legacy("615757", call())).unwrap();
    assert_eq!(gas, 21_000 + (21_000 + 3 * 16) + 3);
    // PUSH32 with 32 bytes of JUMPI, then one JUMPI
    let input = format!("7f{}57", "57".repeat(32));
    let gas = london(1_000_000).estimate(legacy(&input, call())).unwrap();
    assert_eq!(gas, 21_000 + (21_000 + 34 * 16) + 3 + 10);
}

#[test]
fn truncated_push_is_left_out() {
    // PUSH1 0x01, then PUSH2 with one byte where two are due
    let gas = london(1_000_000).estimate(legacy("600161ff", call())).unwrap();
    assert_eq!(gas, 21_000 + (21_000 + 4 * 16) + 3);
    // a push as the last byte
    let gas = london(1_000_000).estimate(legacy("0160", call())).unwrap();
    assert_eq!(gas, 21_000 + (21_000 + 2 * 16) + 3);
}

#[test]
fn unknown_and_blob_instructions_cost_nothing() {
    let gas = london(1_000_000).estimate(legacy("0c494afe", call())).unwrap();
    assert_eq!(gas, 21_000 + (21_000 + 4 * 16));
}

#[test]
fn access_list_is_charged_by_address_and_key() {
    let gas = london(1_000_000).estimate(fee_list("", call(), access_list())).unwrap();
    assert_eq!(gas, 21_000 + (21_000 + 2 * 2_400 + 3 * 1_900));
    let gas = london(1_000_000)
        .estimate(fee_list(CODE, TransactionAction::Create, access_list()))
        .unwrap();
    assert_eq!(gas, 21_000 + 32_000 + (53_000 + 7 * 16 + 2 * 2_400 + 3 * 1_900) + 9);
}

#[test]
fn access_list_order_does_not_matter() {
    let mut reversed = access_list();
    reversed.reverse();
    let gas = london(1_000_000).estimate(fee_list(CODE, call(), access_list())).unwrap();
    let gas_reversed = london(1_000_000).estimate(fee_list(CODE, call(), reversed)).unwrap();
    assert_eq!(gas, gas_reversed);
}

#[test]
fn legacy_transaction_has_no_access_list() {
    let gas = london(1_000_000).estimate(legacy(CODE, call())).unwrap();
    let same = london(1_000_000).estimate(fee_list(CODE, call(), vec![])).unwrap();
    assert_eq!(gas, same);
}

#[test]
fn gas_used_is_the_same_for_both_priced_types() {
    let capped =
        london(1_000_000).estimate(fee_capped(CODE, TransactionAction::Create, access_list()));
    let listed =
        london(1_000_000).estimate(fee_list(CODE, TransactionAction::Create, access_list()));
    assert_eq!(capped.unwrap(), listed.unwrap());
}

#[test]
fn base_cost_over_the_limit() {
    assert_eq!(exceeded(london(20_999).estimate(legacy("", call()))), (0, 20_999, 21_000));
    assert_eq!(exceeded(london(0).estimate(legacy(CODE, call()))), (0, 0, 21_000));
}

#[test]
fn creation_surcharge_over_the_limit() {
    let result = london(52_999).estimate(legacy(CODE, TransactionAction::Create));
    assert_eq!(exceeded(result), (21_000, 52_999, 32_000));
}

#[test]
fn intrinsic_gas_over_the_limit() {
    assert_eq!(exceeded(london(41_999).estimate(legacy("", call()))), (21_000, 41_999, 21_000));
    let result = london(100_000).estimate(legacy(CODE, TransactionAction::Create));
    assert_eq!(exceeded(result), (53_000, 100_000, 53_112));
}

#[test]
fn instruction_over_the_limit() {
    // the third push would take the total from 42_118 to 42_121
    assert_eq!(exceeded(london(42_120).estimate(legacy(CODE, call()))), (42_118, 42_120, 3));
    // the first push would take the total from 42_112 to 42_115
    assert_eq!(exceeded(london(42_112).estimate(legacy(CODE, call()))), (42_112, 42_112, 3));
}

#[test]
fn total_equal_to_the_limit_is_within_it() {
    assert_eq!(london(42_121).estimate(legacy(CODE, call())).unwrap(), 42_121);
    assert_eq!(london(42_000).estimate(legacy("", call())).unwrap(), 42_000);
    assert_eq!(london(u64::MAX).estimate(legacy(CODE, call())).unwrap(), 42_121);
}

#[test]
fn malformed_input_is_reported_before_any_cost() {
    assert!(matches!(london(1_000_000).estimate(legacy("zz", call())), Err(Error::HexDecode(_))));
    assert!(matches!(london(1_000_000).estimate(legacy("606", call())), Err(Error::HexDecode(_))));
    assert!(matches!(
        london(1_000_000).estimate(legacy(" ", TransactionAction::Create)),
        Err(Error::HexDecode(_))
    ));
    assert!(matches!(london(0).estimate(legacy("zz", call())), Err(Error::HexDecode(_))));
}

#[test]
fn appending_code_never_lowers_the_gas() {
    let pieces = ["60", "01", "6002", "01", "5b", "57", "7f", "00", "fe", "61ffff", "0c"];
    for action_is_create in [false, true] {
        let mut input = String::new();
        let mut last = 0;
        for piece in pieces {
            input.push_str(piece);
            let action = if action_is_create { TransactionAction::Create } else { call() };
            let gas = london(u64::MAX).estimate(legacy(&input, action)).unwrap();
            assert!(gas >= last, "{input}: {gas} < {last}");
            last = gas;
        }
    }
}

#[test]
fn appending_code_that_fits_leaves_the_shorter_code_fitting() {
    let shorter = london(42_121).estimate(legacy("606060405260", call()));
    let longer = london(42_121).estimate(legacy(CODE, call()));
    assert_eq!(longer.unwrap(), 42_121);
    assert_eq!(shorter.unwrap(), 21_000 + (21_000 + 6 * 16) + 2 * 3);
}

#[test]
fn accepts_ordinary_transactions() {
    assert!(GasUsedEstimator::accepts(&legacy(CODE, call())));
    assert!(GasUsedEstimator::accepts(&legacy("zz", call())));
    assert!(GasUsedEstimator::accepts(&fee_list(CODE, call(), access_list())));
    assert!(GasUsedEstimator::accepts(&fee_capped("", TransactionAction::Create, access_list())));
}
