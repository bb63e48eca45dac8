[package]
name = "stylus-link-vault"
version = "0.1.0"
edition = "2021"
publish = false

[dependencies]
stylus-sdk = "=0.6.1"
alloy-primitives = { version = "=0.7.6", features = ["tiny-keccak"] }
alloy-sol-types = "=0.7.6"
mini-alloc = "=0.6.1"
ruint = "=1.12.3"

[dev-dependencies]
k256 = "=0.13.4"
p256 = "=0.13.2"
