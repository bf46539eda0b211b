[package]
name = "crypto_facade"
version = "0.1.0"
edition = "2021"
publish = false

[dependencies]
aes = "0.8"
argon2 = "0.5"
block-padding = "0.3"
cbc = { version = "0.1", features = ["alloc", "block-padding"] }
chacha20 = "0.9"
chacha20poly1305 = "0.10"
cipher = { version = "0.4", features = ["alloc", "block-padding"] }
getrandom = "0.2"
hex = "0.4"
hkdf = "0.12"
hmac = "0.12"
sha2 = "0.10"
subtle = "2.5"
