[package]
name = "cjk_token_reducer"
version = "0.1.0"
edition = "2021"
publish = false

[dependencies]
reqwest = { version = "0.12", default-features = false }
serde = { version = "1", features = ["derive"] }
serde_json = "1"
thiserror = "2"
dirs = "5"
tokio = { version = "1", default-features = false, features = ["rt"] }
