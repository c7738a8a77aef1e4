[package]
name = "netprotocol"
version = "0.1.0"
edition = "2021"
publish = false

[dependencies]
anyhow = "*"
argon2 = "*"
async-trait = "*"
libhydrogen = "*"
passterm = "*"
tokio = { version = "*", features = ["net", "io-util", "rt", "rt-multi-thread", "macros"] }
zeroize = "*"
