[package]
name = "pooled_vault"
version = "0.1.0"
edition = "2021"
publish = false

[dependencies]
cosmwasm-std = "1"
cw0 = "0.10"
cw2 = "1"
cw20 = "1"
cw-storage-plus = "1"
cosmwasm-schema = "1"
mars-red-bank-types = "1"
schemars = "0.8"
serde = { version = "1", features = ["derive"] }
thiserror = "1"
