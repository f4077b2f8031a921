[package]
name = "jwt_core"
version = "0.1.0"
edition = "2021"
publish = false

[dependencies]
jsonwebtoken = "7.2"
serde = { version = "1", features = ["derive"] }
serde_json = "1"
neon = "1"
