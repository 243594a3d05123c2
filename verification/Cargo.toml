[package]
name = "ytaudio"
version = "0.1.0"
edition = "2021"
publish = false

[dependencies]
serde_json = "*"
serde = { version = "*", features = ["derive"] }
tokio = { version = "*", features = ["rt-multi-thread", "macros", "process", "sync", "fs", "io-util", "time"] }
futures = "*"
clap = { version = "*", features = ["derive"] }
indicatif = "*"
tracing = "*"
tracing-subscriber = { version = "*", features = ["env-filter"] }
dirs = "*"
figment = { version = "*", features = ["toml", "env"] }
which = "*"
tempfile = "*"
anyhow = "*"
