[package]
name = "wasi_streams"
version = "0.1.0"
edition = "2021"
publish = false

[dependencies]
anyhow = "1"
async-trait = "0.1"
serde = { version = "1", features = ["derive"] }
target-lexicon = "0.12"
tracing = "0.1"
