[package]
name = "contact_directory"
version = "0.1.0"
edition = "2021"
publish = false

[dependencies]
email_address = "0.2"
axum = "0.6"
axum-flash = "0.6"
askama = "0.12"
futures-util = "0.3"
serde = { version = "1", features = ["derive"] }
tokio = { version = "1", features = ["full"] }
