[package]
name = "contract_check"
version = "0.1.0"
edition = "2021"
publish = false

[dependencies]
cosmwasm-vm = "*"
rmp-serde = "*"
clap = "4"
colored = "*"
