[package]
name = "reworkit"
version = "0.1.0"
edition = "2021"
publish = false

[dependencies]
flate2 = "*"
tokio = { version = "*", features = ["rt-multi-thread", "macros", "net", "fs", "time", "process", "io-util"] }
axum = { version = "*", features = ["multipart"] }
sqlx = { version = "*", default-features = false, features = ["runtime-tokio", "postgres"] }
reqwest = { version = "*", default-features = false, features = ["multipart"] }
redis = { version = "*", default-features = false, features = ["tokio-comp"] }
serde = { version = "*", features = ["derive"] }
serde_json = "*"
clap = { version = "*", features = ["derive", "env"] }
dotenvy = "*"
walkdir = "*"
anyhow = "*"
