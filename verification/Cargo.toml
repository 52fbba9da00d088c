[package]
name = "xcmp_message_stuffer"
version = "0.1.0"
edition = "2021"
publish = false

[dependencies]
binary-merkle-tree = { version = "=16.1.2", default-features = false }
sp-core = { version = "=43.0.0", default-features = false }
sp-runtime = { version = "=49.0.0", default-features = false }
sp-mmr-primitives = { version = "=44.0.0", default-features = false }
pallet-mmr = { version = "=50.0.0", default-features = false }
parity-scale-codec = { version = "=3.7.5", features = ["derive"] }
