[package]
name = "token_registry"
version = "0.1.0"
edition = "2021"
publish = false

[dependencies]
serde = "*"
serde_derive = "*"

[dev-dependencies]
serde_json = "*"
