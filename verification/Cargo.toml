[package]
name = "realtps"
version = "0.1.0"
edition = "2021"
publish = false

[dependencies]
anyhow = "=1.0.104"
async-trait = "=0.1.92"
chrono = { version = "=0.4.45", features = ["serde"] }
clap = { version = "=3.2.25", features = ["derive"] }
futures = "=0.3.34"
hex = "=0.4.3"
jsonrpc-core = "18"
jsonrpc-core-client = { version = "18", features = ["http"] }
log = "=0.4.34"
log4rs = "=1.4.0"
rand = "=0.8.8"
reqwest = { version = "=0.11.27", features = ["json"] }
serde = { version = "=1.0.229", features = ["derive"] }
serde_json = "=1.0.154"
sp-crypto-hashing = "=0.1.0"
sp-storage = "*"
tendermint = "*"
tendermint-proto = "*"
tendermint-rpc = { version = "*", features = ["http-client"] }
tokio = { version = "=1.54.1", features = ["full"] }
toml = "=0.5.11"
