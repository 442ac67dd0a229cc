[package]
name = "mediacore"
version = "0.1.0"
edition = "2021"
publish = false

[dependencies]
chrono = "*"
trash = "*"
serde = { version = "*", features = ["derive"] }
reqwest = { version = "*", default-features = false, features = ["blocking"] }
