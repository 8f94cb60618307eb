[package]
name = "spin_sqlx"
version = "0.1.0"
edition = "2021"
publish = false

[dependencies]
anyhow = "1"
either = "1"
futures = "0.3"
futures-core = "0.3"
http = "0.2"
log = "0.4"
spin-sdk = "2"
sqlx = { version = "0.7", default-features = false }
url = "2"
