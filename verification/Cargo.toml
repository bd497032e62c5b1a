[package]
name = "pkcs11_uri"
version = "0.1.0"
edition = "2021"
publish = false

[dependencies]
anyhow = "1"
log = "0.4"
percent-encoding = "2"
pkcs11 = "*"
uriparse = "*"
