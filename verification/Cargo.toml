[package]
name = "cw20_factory"
version = "0.1.0"
edition = "2021"
publish = false

[dependencies]
cosmwasm-schema = "=1.5.11"
cosmwasm-std = { version = "=1.5.11", features = ["cosmwasm_1_1", "staking", "stargate"] }
cw-storage-plus = "=1.2.0"
cw20 = "=1.1.2"
cw20-base = { version = "=1.1.2", features = ["library"] }
osmosis-std = "=0.22.0"
rhaki-cw-plus = "=2.2.4"
thiserror = "=1.0.69"
