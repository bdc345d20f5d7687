[package]
name = "cumulus-test-service"
version = "0.1.0"
edition = "2021"
publish = false

[dependencies]
parity-multiaddr = { version = "=0.11.2", default-features = false }
polkadot-primitives = "8.0"
rand = "=0.8.8"
sp-core = "29.0"
sp-keyring = "32.0"
