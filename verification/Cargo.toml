[package]
name = "ani_tui"
version = "0.1.0"
edition = "2021"
publish = false

[dependencies]
anyhow = "=1.0.104"
crossterm = "=0.29.0"
directories = "=5.0.1"
image = { version = "=0.25.10", default-features = false, features = ["png", "jpeg"] }
ratatui = "=0.30.2"
ratatui-image = { version = "=1.0.5", default-features = false, features = ["crossterm"] }
reqwest = { version = "=0.12.28", default-features = false, features = ["json", "rustls-tls"] }
serde = { version = "=1.0.229", features = ["derive"] }
serde_json = "=1.0.154"
sqlx = { version = "=0.8.6", default-features = false, features = ["sqlite", "runtime-tokio", "derive"] }
thiserror = "=1.0.69"
tokio = { version = "=1.54.1", features = ["sync", "rt-multi-thread", "macros", "process", "time", "io-util"] }
toml = "=0.8.23"
