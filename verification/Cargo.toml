[package]
name = "kromer"
version = "0.1.0"
edition = "2021"
publish = false

[dependencies]
ansi_term = "0.12"
anyhow = "1"
dashmap = "=4.0.2"
dotenv = "0.15"
env_logger = "0.9"
log = "0.4"
sqlx = { version = "=0.5.13", features = ["runtime-tokio-rustls", "postgres"] }
structopt = "0.3"
tokio = { version = "1", features = ["rt-multi-thread", "macros", "time"] }
tokio-stream = "0.1"
twilight-gateway = "0.6"
twilight-http = "0.6"
twilight-mention = "0.6"
twilight-model = "0.6"
twilight-standby = "0.6"
