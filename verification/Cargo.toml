[package]
name = "tuigreet"
version = "0.13.0"
edition = "2021"
publish = false

[dependencies]
chrono = "*"
clap = { version = "4", features = ["derive"] }
clap_mangen = "*"
crossterm = "*"
dirs = "*"
figment = { version = "*", features = ["toml", "env"] }
futures = "*"
greetd_ipc = { version = "*", features = ["tokio-codec"] }
notify = "*"
ratatui = "*"
serde = { version = "1", features = ["derive"] }
tokio = { version = "1", features = ["full"] }
toml = "*"
tracing = "*"
tracing-appender = "*"
tracing-subscriber = "*"
zeroize = "*"
