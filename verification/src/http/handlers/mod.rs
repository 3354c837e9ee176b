//! The bodies of the answers, one module for each endpoint.

pub mod gas_fee_estimate;
