[package]
name = "dao_governance"
version = "0.1.0"
edition = "2021"
publish = false

[dependencies]
cosmwasm-schema = "=1.5.11"
cosmwasm-std = "=1.5.11"
cw-storage-plus = "=0.16.0"
cw-utils = "=0.16.0"
cw2 = "=0.16.0"
cw20 = "=0.16.0"
cw4 = "=0.16.0"
proc-macro2 = "=1.0.107"
quote = "=1.0.47"
schemars = "=0.8.22"
serde = { version = "=1.0.229", features = ["derive"] }
syn = { version = "=1.0.109", features = ["full", "extra-traits"] }
