[package]
name = "noise"
version = "0.1.0"
edition = "2021"
publish = false

[dependencies]
nss-rs = "=0.0.0"
sha2 = "=0.10.9"
digest = "=0.10.7"
serde_cbor_2 = "=0.13.0"
pkcs11-bindings = "=0.1.8"
thin-vec = "=0.2.21"
authenticator = "=0.5.0"

[dev-dependencies]
aes-gcm = "0.10"
aes = "0.8"
p256 = { version = "0.13", features = ["ecdh"] }
