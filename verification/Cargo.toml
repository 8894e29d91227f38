[package]
name = "oml"
version = "0.1.0"
edition = "2021"
publish = false

[dependencies]
actix-web = "4"
serde = "1"
tokio = { version = "1", features = ["rt", "rt-multi-thread", "macros"] }
