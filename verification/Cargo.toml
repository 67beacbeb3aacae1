[package]
name = "amm_rpc"
version = "0.1.0"
edition = "2021"
publish = false

[dependencies]
serde = { version = "1", features = ["derive"] }
serde_json = "1"
jsonrpc-core = "18"
jsonrpc-derive = "18"
parity-scale-codec = { version = "3", features = ["derive"] }
sp-api = "*"
sp-blockchain = "*"
sp-runtime = "*"
