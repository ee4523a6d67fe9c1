[package]
name = "st_scaling_factor"
version = "0.1.0"
edition = "2021"
publish = false

[dependencies]
cosmwasm-std = "1"
cw-storage-plus = "1"
cw2 = "1"
osmosis-std = "0.22"
serde = { version = "1", features = ["derive"] }
