[package]
name = "surreal_use"
version = "0.1.0"
edition = "2021"
publish = false

[dependencies]
darling = "=0.20.3"
serde = { version = "1", features = ["derive"] }
serde_json = "1"
surrealdb = { version = "=1.1.1", default-features = false }
