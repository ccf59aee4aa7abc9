[package]
name = "crow"
version = "0.1.0"
edition = "2021"
publish = false

[dependencies]
futures = "0.3"
libflate = "*"
serde = { version = "*", features = ["derive"] }
serde_json = "*"
rand = "*"
gkquad = "*"
