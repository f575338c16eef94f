[package]
name = "db_backup_goog"
version = "0.1.0"
edition = "2021"
publish = false

[dependencies]
anyhow = "*"
chrono = "*"
clap = { version = "*", features = ["derive"] }
dotenvy = "*"
google-drive3 = "*"
hyper-rustls = { version = "*", features = ["http2"] }
hyper-util = "*"
mime = "*"
rustls = "*"
serde_json = "*"
tar = "*"
tokio = { version = "*", features = ["macros", "rt-multi-thread", "process", "fs", "io-util"] }
tracing = "*"
tracing-appender = "*"
tracing-subscriber = { version = "*", features = ["json"] }
yup-oauth2 = "*"
zstd = { version = "*", features = ["zstdmt"] }
