[package]
name = "aegis_sealer"
version = "0.1.0"
edition = "2021"
publish = false

[dependencies]
p256 = { version = "*", features = ["ecdsa"] }
sha2 = "*"
hex = "*"
anyhow = "*"
axum = { version = "*", features = ["multipart"] }
dotenvy = "*"
tokio = { version = "*", features = ["macros", "rt-multi-thread", "net"] }
tower-http = { version = "*", features = ["cors"] }
tracing = "*"
tracing-subscriber = { version = "*", features = ["env-filter"] }
