[package]
name = "pluto"
version = "0.1.0"
edition = "2021"
publish = false

[dependencies]
sha2 = "0.10"
cosmwasm-std = "1"
cw2 = "1"
cw20-base = { version = "1", features = ["library"] }
cw-storage-plus = "1"
schemars = "0.8"
serde = { version = "1", features = ["derive"] }
