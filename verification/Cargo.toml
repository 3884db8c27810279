[package]
name = "vigil"
version = "0.1.0"
edition = "2021"
publish = false

[dependencies]
argon2 = "0.5"
jsonwebtoken = "9"
serde_json = "1"
serde = { version = "1", features = ["derive"] }
uuid = { version = "1", features = ["v4"] }
rand = "0.8"
chrono = "0.4"
poem = "3"
tokio = { version = "1", features = ["macros", "rt-multi-thread"] }
dotenvy = "0.15"
