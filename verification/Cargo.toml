[package]
name = "yukumo"
version = "0.1.0"
edition = "2021"
publish = false

[dependencies]
anyhow = "*"
async-stream = "*"
bytes = "*"
chrono = "*"
clap = { version = "*", features = ["derive", "env"] }
dotenv = "*"
env_logger = "*"
futures = "*"
home = "*"
indicatif = "*"
log = "*"
mime_guess = "*"
reqwest = { version = "*", features = ["json", "stream", "gzip"] }
serde = { version = "*", features = ["derive"] }
serde_json = "*"
sqlx = { version = "*", default-features = false, features = ["runtime-tokio", "tls-rustls", "postgres", "chrono"] }
tokio = { version = "*", features = ["rt-multi-thread", "macros", "fs", "io-util"] }
tokio-util = { version = "*", features = ["io"] }
toml = "*"
uuid = { version = "*", features = ["v4"] }
