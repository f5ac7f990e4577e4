[package]
name = "ddc_primitives"
version = "0.1.0"
edition = "2021"
publish = false

[dependencies]
blake2 = "=0.10.6"
hex = "=0.4.3"
parity-scale-codec = { version = "=3.7.5", features = ["derive"] }
polkadot-ckb-merkle-mountain-range = "=0.8.3"
serde = { version = "=1.0.229", features = ["derive"] }
sp-core = { version = "=43.0.0", default-features = false, features = ["serde"] }
sp-arithmetic = { version = "=29.0.0", default-features = false }
sp-runtime = { version = "*", default-features = false }
frame-system = { version = "*", default-features = false }
