[package]
name = "notecrypt_service"
version = "0.1.0"
edition = "2021"
publish = false

[dependencies]
blake3 = { version = "1", default-features = false, features = ["pure", "zeroize"] }
constant_time_eq = "0.3"
crossbeam-channel = "0.5"
getrandom = "0.3"
zeroize = "1"
