[package]
name = "nanowave"
version = "0.1.0"
edition = "2021"
publish = false

[dependencies]
xxhash-rust = { version = "*", features = ["xxh3"] }
chrono = "*"
tokio = { version = "1", features = ["full"] }
serde = { version = "1", features = ["derive"] }
serde_json = "1"
anyhow = "1"
tracing = "*"
tracing-subscriber = "*"
walkdir = "*"
file-id = "*"
lofty = "*"
mp4ameta = "*"
image = { version = "*", default-features = false, features = ["jpeg", "png"] }
evdev = "*"
debounce = "*"
sysfs_gpio = { version = "*", features = ["async-tokio"] }
linux-embedded-hal = "*"
max170xx = "*"
futures = "*"
futures-util = "*"
url = "*"
tungstenite = "*"
tokio-tungstenite = "*"
