[package]
name = "jukebox"
version = "0.1.0"
edition = "2021"
publish = false

[dependencies]
axum = { version = "=0.8.9", default-features = false, features = ["tokio", "http1", "json"] }
image = { version = "=0.25.10", default-features = false, features = ["png"] }
local-ip-address = "=0.6.13"
qrcode = { version = "=0.14.1", default-features = false, features = ["image"] }
reqwest = { version = "=0.12.28", default-features = false, features = ["rustls-tls"] }
rodio = { version = "=0.20.1", default-features = false, features = ["mp3"] }
scraper = { version = "=0.29.0", default-features = false, features = ["errors"] }
serde = { version = "=1.0.229", features = ["derive"] }
tokio = { version = "=1.54.1", features = ["rt-multi-thread", "macros", "sync", "time", "net", "fs"] }
tower-http = { version = "=0.6.11", features = ["fs"] }
yt-dlp = "1.4"
