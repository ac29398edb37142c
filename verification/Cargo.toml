[package]
name = "spotify_client_tui"
version = "0.1.0"
edition = "2021"
publish = false

[dependencies]
arboard = { version = "=3.6.1", default-features = false }
axum = "=0.8.9"
base64 = "=0.23.1"
dirs = "=7.0.0"
log = { version = "=0.4.34", features = ["std"] }
num-format = "=0.4.4"
open = "=5.4.4"
ratatui = "=0.30.2"
reqwest = { version = "=0.13.5", default-features = false, features = ["json", "form"] }
scraper = "=0.27.0"
serde = { version = "=1.0.229", features = ["derive"] }
serde_json = "=1.0.151"
tokio = { version = "=1.53.2", features = ["rt-multi-thread", "net", "sync", "macros"] }
