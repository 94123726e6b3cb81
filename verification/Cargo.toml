[package]
name = "mouthwrite-linux"
version = "0.1.0"
edition = "2021"
publish = false

[dependencies]
base64 = "0.22"
serde = { version = "1", features = ["derive"] }
serde_json = "1"
toml = "0.8"
dirs = "5"
clap = { version = "4", features = ["derive"] }
tokio = { version = "1", features = ["full"] }
reqwest = { version = "0.12", default-features = false, features = ["json", "stream", "rustls-tls"] }
eventsource-stream = "0.2"
futures = "0.3"
thiserror = "1"
tracing = "0.1"
tracing-appender = "0.2"
tracing-subscriber = { version = "0.3", features = ["env-filter"] }
arboard = { version = "3", default-features = false }
evdev = "0.12"
uinput = "0.1"
cpal = "0.15"
rodio = { version = "0.19", default-features = false, features = ["mp3"] }
libc = "0.2"
