[package]
name = "sharing_core"
version = "0.1.0"
edition = "2021"
publish = false

[dependencies]
md5 = "0.7"
serde_json = "1"
serde = { version = "1", features = ["derive"] }
anyhow = "1"
axum = { version = "*", default-features = false }
futures-util = "0.3"
chrono = { version = "0.4", default-features = false, features = ["clock"] }
git-version = "0.3"
utoipa = "*"
