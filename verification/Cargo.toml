[package]
name = "gas_fee_estimator"
version = "0.1.0"
edition = "2021"
publish = false

[dependencies]
anyhow = "=1.0.104"
async-trait = "=0.1.92"
axum = "=0.8.9"
clap = { version = "=4.6.7", features = ["derive"] }
ctrlc = "=3.5.2"
ethereum = { version = "0.15", features = ["with-serde"] }
evm-disassembler = "0.5"
evm-gasometer = "=0.42.0"
evm-runtime = "=0.42.0"
eyre = "=0.6.14"
hex = "=0.4.3"
lazy_static = "=1.5.1"
log = "=0.4.34"
primitive-types = { version = "=0.12.2", features = ["serde"] }
serde = { version = "=1.0.229", features = ["derive"] }
simple_logger = "=5.2.0"
thiserror = "=2.0.21"
tokio = { version = "=1.54.1", features = ["full"] }
tokio-util = "=0.7.20"
tower-http = { version = "=0.7.1", features = ["timeout"] }
url = "=2.5.8"
