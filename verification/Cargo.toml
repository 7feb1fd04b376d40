[package]
name = "rpc_types"
version = "0.1.0"
edition = "2021"
publish = false

[dependencies]
hex = "0.4"
jsonpath_lib = "0.3"
serde = { version = "1", features = ["derive"] }
serde_json = "1"
tendermint = "0.23"
tendermint-rpc = "0.23"
thiserror = "1"
