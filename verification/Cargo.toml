[package]
name = "wyre"
version = "0.1.0"
edition = "2021"
publish = false

[dependencies]
serde = { version = "=1.0.229", features = ["derive"] }
serde_json = "=1.0.151"
reqwest = { version = "=0.13.5", default-features = false, features = ["json", "query"] }
secrecy = "=0.10.3"
bigdecimal = { version = "=0.4.11", features = ["serde"] }
