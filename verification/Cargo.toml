[package]
name = "creator_pool"
version = "0.1.0"
edition = "2021"
publish = false

[dependencies]
anchor-lang = "0.24.2"
anchor-spl = "0.24.2"
spl-math = { version = "0.1.0", features = ["no-entrypoint"] }
