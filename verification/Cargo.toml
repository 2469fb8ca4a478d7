[package]
name = "crypto_line"
version = "0.1.0"
edition = "2021"
publish = false

[dependencies]
aes-gcm = "*"
byteorder = "*"
chacha20-poly1305-aead = "*"
chacha20poly1305 = "*"
hex = "*"
secp256k1 = "*"
