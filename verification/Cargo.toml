[package]
name = "haematite"
version = "0.1.0"
edition = "2021"
publish = false

[dependencies]
rustls = "0.21"
sha1 = "0.10"

[dev-dependencies]
hex = "0.4"
