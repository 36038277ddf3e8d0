[package]
name = "user_crud"
version = "0.1.0"
edition = "2021"
publish = false

[dependencies]
regex = "1"
axum = "0.6"
tokio = { version = "1", features = ["macros", "rt-multi-thread"] }
serde = { version = "1", features = ["derive"] }
serde_derive = "1"
serde_json = "1"
