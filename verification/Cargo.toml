[package]
name = "mpmp"
version = "0.1.0"
edition = "2021"
publish = false

[dependencies]
serde = { version = "1", features = ["derive"] }
rmp-serde = "1"
openssl = "0.10"
