//! Estimates, before submission, what executing an Ethereum transaction will
//! cost: the gas it uses under a fixed cost schedule, and the fee in wei that
//! follows from the gas price rules of its transaction type.
//!
//! - [`fee_estimator`] holds the transaction model, the gas meter and the
//!   estimators, one for each transaction type and one that serves them all.
//! - [`uint256`] holds the 256-bit amounts that prices and fees are given in.
//! - [`http`] holds the body of the answer that the service gives.
//!
//! Nothing here reads the market price, the network or the clock: an
//! estimator is made for a market price that its caller has read.

pub mod fee_estimator;
pub mod http;
pub mod uint256;
