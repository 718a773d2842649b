[package]
name = "typed_store"
version = "0.1.0"
edition = "2021"
publish = false

[dependencies]
anyhow = "*"
futures = "*"
serde_json = "*"
sqlx = { version = "*", default-features = false, features = ["any", "sqlite", "runtime-tokio"] }
tokio = { version = "*", default-features = false, features = ["rt", "macros"] }
