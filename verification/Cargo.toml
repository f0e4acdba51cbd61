[package]
name = "aws"
version = "0.1.0"
edition = "2021"
publish = false

[dependencies]
surf = { version = "2", default-features = false, features = ["h1-client-rustls"] }
