use gas_fee_estimator::http::handlers::gas_fee_estimate::EstimateResponse;
use gas_fee_estimator::uint256::U256;

#[test]
fn success_carries_the_fee_and_no_error() {
    let fee = U256([1, 2, 3, 4]);
    assert_eq!(EstimateResponse::success(fee).into_parts(), (fee, None));
}

#[test]
fn error_carries_the_message_and_a_fee_of_zero() {
    let response = EstimateResponse::error("Max fee / gas is too low".to_string());
    assert_eq!(
        response.into_parts(),
        (U256::zero(), Some("Max fee / gas is too low".to_string()))
    );
}
