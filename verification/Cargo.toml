[package]
name = "dorsal"
version = "0.1.0"
edition = "2021"
publish = false

[dependencies]
hex_fmt = "0.3"
serde = { version = "1", features = ["derive"] }
serde_json = "1"
sha2 = "0.10"
sqlx = { version = "0.7", default-features = false, features = ["runtime-tokio", "sqlite", "mysql", "postgres"] }
uuid = { version = "1", features = ["v4"] }
