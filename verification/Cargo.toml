[package]
name = "mls_session"
version = "0.1.0"
edition = "2021"
publish = false

[dependencies]
hex = "0.4"
openmls = "*"
openmls_basic_credential = "*"
openmls_rust_crypto = "*"
serde = { version = "1", features = ["derive"] }
serde_json = "1"
thiserror = "1"
uniffi = "*"
