[package]
name = "casper-multisig-tool"
version = "0.1.0"
edition = "2021"
publish = false

[dependencies]
casper-types = { version = "=3.0.0", features = ["std"] }
once_cell = "=1.21.4"
dirs = "=7.0.0"
