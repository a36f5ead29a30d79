[package]
name = "terminal_dj"
version = "0.1.0"
edition = "2021"
publish = false

[dependencies]
md5 = "0.7"
percent-encoding = "2"
anyhow = "1"
serde = { version = "1", features = ["derive"] }
serde_json = "1"
tokio = { version = "1", features = ["full"] }
ratatui = "0.29"
crossterm = "0.28"
biquad = "0.4"
rustfft = "6"
ringbuf = "0.3"
reqwest = { version = "0.12", default-features = false, features = ["json", "rustls-tls"] }
rspotify = { version = "0.13", default-features = false, features = ["client-reqwest", "reqwest-rustls-tls"] }
rusqlite = { version = "0.31", features = ["bundled"] }
dirs = "5"
dotenvy = "0.15"
lofty = "0.21"
tiny_http = "0.12"
webbrowser = "1"
image = { version = "0.25", default-features = false, features = ["png", "jpeg"] }
log = "0.4"
tracing = "0.1"
tracing-subscriber = { version = "0.3", features = ["env-filter"] }
