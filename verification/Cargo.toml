[package]
name = "gas_distributor"
version = "0.1.0"
edition = "2021"
publish = false

[dependencies]
cosmos-sdk-proto = { version = "=0.20.0", default-features = false }
cosmwasm-schema = "=1.5.11"
cosmwasm-std = "=1.5.11"
cw-ownable = "=0.5.1"
cw-storage-plus = "=1.2.0"
cw2 = "=1.1.2"
neutron-sdk = "=0.10.0"
schemars = "=0.8.22"
serde = { version = "=1.0.229", default-features = false, features = ["derive"] }
thiserror = "=1.0.69"
