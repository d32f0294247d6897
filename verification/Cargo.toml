[package]
name = "sealed_envelope"
version = "0.1.0"
edition = "2021"
publish = false

[dependencies]
aead = { version = "0.5", features = ["alloc", "getrandom"] }
aes-gcm = "0.10"
aes-gcm-siv = "0.11"
chacha20poly1305 = { version = "0.10", features = ["reduced-round"] }
bitcode = { version = "0.6", features = ["serde"] }
bincode = "1"
secrecy = "0.8"
serde = { version = "1", features = ["derive"] }
thiserror = "1"
boring-derive = "*"
