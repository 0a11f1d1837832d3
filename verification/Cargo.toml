[package]
name = "spectrace"
version = "0.1.0"
edition = "2021"
publish = false

[dependencies]
color = "*"
image = { version = "0.25", default-features = false, features = ["png"] }
csv = "1"
serde = { version = "1", features = ["derive"] }
