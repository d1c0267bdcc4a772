[package]
name = "ant_bindings"
version = "0.1.0"
edition = "2021"
publish = false

[dependencies]
blsttc = "8"
bytes = "1"
hex = "0.4"
libp2p = { version = "*", default-features = false }
thiserror = "*"
uniffi = "*"
