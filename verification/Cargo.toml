[package]
name = "blockchain"
version = "0.1.0"
edition = "2021"
publish = false

[dependencies]
rust-crypto = "*"
url = "*"
serde = { version = "*", features = ["derive"] }
serde_json = "*"
uuid = { version = "*", features = ["v4"] }
rocket = { version = "*", features = ["json"] }
reqwest = { version = "*", default-features = false, features = ["blocking", "json"] }
