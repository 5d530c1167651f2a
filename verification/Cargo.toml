[package]
name = "attest_cert"
version = "0.1.0"
edition = "2021"
publish = false

[dependencies]
p256 = "0.13"
rand_core = { version = "0.6", features = ["getrandom"] }
chrono = { version = "0.4", default-features = false, features = ["std"] }

[dev-dependencies]
yasna = "0.5"
