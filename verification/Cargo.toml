[package]
name = "webp-convert-api"
version = "0.1.0"
edition = "2021"
publish = false

[dependencies]
actix-web = { version = "4", default-features = false, features = ["macros"] }
anyhow = "1"
argh = "*"
envy = "*"
image = "*"
serde = { version = "1", features = ["derive"] }
tracing = "*"
tracing-subscriber = "*"
