[package]
name = "priority_ops"
version = "0.1.0"
edition = "2021"
publish = false

[dependencies]
ethabi = "*"
web3 = { version = "*", default-features = false }
bigdecimal = "*"
