[package]
name = "parachain_precompiles"
version = "0.1.0"
edition = "2021"
publish = false

[dependencies]
alloy-core = { version = "=1.7.3", features = ["sol-types"] }
primitive-types = { version = "=0.14.0", default-features = false }
parity-scale-codec = { version = "=3.7.5", features = ["derive"] }

[dev-dependencies]
hex = "=0.4.3"
