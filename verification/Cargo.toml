[package]
name = "twitton"
version = "0.1.0"
edition = "2021"
publish = false

[dependencies]
actix-web = "*"
anyhow = "*"
derive_more = { version = "*", features = ["display", "error"] }
log = "*"
pretty_env_logger = "*"
serde = { version = "*", features = ["derive"] }
