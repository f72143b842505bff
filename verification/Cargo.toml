[package]
name = "mpser"
version = "0.1.0"
edition = "2021"
publish = false

[dependencies]
rmp = "0.8"
serde = { version = "1.0", features = ["derive"] }
thiserror = "1.0"
