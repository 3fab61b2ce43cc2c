[package]
name = "bdk_ffi"
version = "0.1.0"
edition = "2021"
publish = false

[dependencies]
bdk = { version = "=0.30.2", features = ["sqlite-bundled", "use-esplora-ureq", "keys-bip39"] }
