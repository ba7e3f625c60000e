[package]
name = "shuttle"
version = "0.1.0"
edition = "2021"
publish = false

[dependencies]
rand = "0.8"
rand_pcg = "0.3"
tracing = "0.1"
arbitrary = { version = "1", features = ["derive"] }
afl = "0.15"
