[package]
name = "starks_vm"
version = "0.1.0"
edition = "2021"
publish = false

[dependencies]
blake3 = { version = "1", default-features = false, features = ["pure"] }
sha3 = "0.8"
sp-std = "*"
