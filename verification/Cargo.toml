[package]
name = "asana_tui"
version = "0.1.0"
edition = "2021"
publish = false

[dependencies]
anyhow = "=1.0.104"
chrono = "=0.4.45"
clap = "=2.34.0"
crossterm = "=0.20.0"
dirs = "=3.0.2"
log = "=0.4.34"
reqwest = { version = "=0.11.27", features = ["json"] }
serde = { version = "=1.0.229", features = ["derive"] }
serde_json = "=1.0.154"
serde_yaml = "=0.8.26"
tokio = { version = "=1.54.1", features = ["full"] }
tui = { version = "=0.16.0", default-features = false, features = ["crossterm"] }
tui-logger = "=0.6.6"

[dev-dependencies]
fake = { version = "=2.10.0", features = ["uuid"] }
