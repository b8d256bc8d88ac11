[package]
name = "ledger_shell"
version = "0.1.0"
edition = "2021"
publish = false

[dependencies]
tendermint-proto = "*"
borsh = "*"
num-traits = "*"
num-derive = "*"
thiserror = "*"
tokio = { version = "1", features = ["sync"] }
tracing = "*"
eyre = "*"
