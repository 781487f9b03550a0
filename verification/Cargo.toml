[package]
name = "caniuse"
version = "0.1.0"
edition = "2021"
publish = false

[dependencies]
phf = "*"
serde = { version = "1", features = ["derive"] }
serde_derive = "1"

[dev-dependencies]
phf_generator = "*"
phf_shared = "*"
