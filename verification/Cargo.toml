[package]
name = "wlsd"
version = "0.1.0"
edition = "2021"
publish = false

[dependencies]
anyhow = "*"
axum = "*"
axum-extra = { version = "*", features = ["cookie"] }
lettre = { version = "*", default-features = false, features = ["smtp-transport", "builder"] }
rand = "0.8"
serde = { version = "*", features = ["derive"] }
tokio = { version = "*", features = ["rt-multi-thread", "macros", "net"] }
toml = "*"
