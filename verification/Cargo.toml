[package]
name = "chain_harness"
version = "0.1.0"
edition = "2021"
publish = false

[dependencies]
clarity-repl = { version = "=0.33.2", default-features = false, features = ["cli"] }
regex = "=1.7.3"
serde = { version = "=1.0.229", features = ["derive"] }
serde_json = "=1.0.151"
