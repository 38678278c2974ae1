[package]
name = "axum_auth"
version = "0.1.0"
edition = "2021"
publish = false

[dependencies]
dotenvy = "0.15"
config = { version = "0.14", default-features = false, features = ["toml"] }
serde = { version = "1", features = ["derive"] }
once_cell = "1"
tokio = { version = "1", default-features = false, features = ["macros", "rt-multi-thread"] }

[dev-dependencies]
tempfile = "3"
