[package]
name = "solo_machine"
version = "0.1.0"
edition = "2021"
publish = false

[dependencies]
cosmos-sdk-proto = { version = "0.6", default-features = false }
ed25519-dalek = "=1.0.1"
hex = "=0.4.3"
ibc-proto = "=0.8.2"
k256 = { version = "=0.9.6", features = ["ecdsa"] }
prost = "=0.7.0"
prost-types = "=0.7.0"
regex = "=1.13.1"
ripemd160 = "=0.9.1"
sha2 = "=0.9.9"
signature = "=1.3.2"
thiserror = "=1.0.69"
