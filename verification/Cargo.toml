[package]
name = "numis_watch"
version = "0.1.0"
edition = "2021"
publish = false

[dependencies]
reqwest = { version = "*", default-features = false, features = ["blocking"] }
serde = { version = "*", features = ["derive"] }
serde_json = "*"
