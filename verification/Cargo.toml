[package]
name = "jpv_lib"
version = "0.1.0"
edition = "2021"
publish = false

[dependencies]
memchr = "=2.8.3"
encoding_rs = "=0.8.44"
serde = { version = "=1.0.229", features = ["derive"] }
toml = "=0.8.23"
anyhow = "=1.0.104"
xmlparser = "0.13"
flate2 = "1"
