[package]
name = "chain_vm_mock"
version = "0.1.0"
edition = "2021"
publish = false

[dependencies]
num-bigint = "*"
num-traits = "*"
sha3 = "*"
hex = "*"
