[package]
name = "uketoru"
version = "0.1.0"
edition = "2021"
publish = false

[dependencies]
axum = "0.7"
lettre = "0.11"
serde = { version = "1", features = ["derive"] }
tokio = { version = "1", features = ["macros", "net", "rt-multi-thread"] }
toml = "0.8"
