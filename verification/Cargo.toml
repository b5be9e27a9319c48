[package]
name = "mls_chat"
version = "0.1.0"
edition = "2021"
publish = false

[dependencies]
openmls = "=0.4.1"
openmls_rust_crypto = "=0.1.0"
