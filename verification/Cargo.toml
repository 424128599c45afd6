[package]
name = "vehicle_dashboard"
version = "0.1.0"
edition = "2021"
publish = false

[dependencies]
slint = { version = "1", default-features = false, features = ["std", "compat-1-2"] }
rand = "*"
serde = { version = "1", features = ["derive"] }
tokio = { version = "1", features = ["full"] }
axum = "0.8"
reqwest = { version = "0.12", default-features = false, features = ["json"] }
