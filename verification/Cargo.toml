[package]
name = "block_indexer"
version = "0.1.0"
edition = "2021"
publish = false

[dependencies]
fuel-indexer-plugin = "=0.14.0"
serde_json = "=1.0.154"
