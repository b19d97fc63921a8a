[package]
name = "parallel_invocation"
version = "0.1.0"
edition = "2021"
publish = false

[dependencies]
chrono = "0.4"
zip = { version = "2", default-features = false, features = ["deflate"] }
