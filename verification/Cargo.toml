[package]
name = "terraswap_moon"
version = "0.1.0"
edition = "2021"
publish = false

[dependencies]
cosmwasm-std = "=1.5.11"
cw20 = "=1.1.2"
cw2 = "=1.1.2"
cw-storage-plus = "=1.2.0"
schemars = "0.8"
serde = { version = "1", features = ["derive"] }
classic-bindings = "=0.1.1"
classic_terraswap = "=2.8.0"
