[package]
name = "kiri_tui"
version = "0.1.0"
edition = "2021"
publish = false

[dependencies]
anyhow = "1"
arboard = { version = "3", default-features = false, features = ["image-data"] }
base64 = "0.22"
crossterm = { version = "*", features = ["event-stream"] }
png = "*"
pulldown-cmark = { version = "0.13", default-features = false }
ratatui = "*"
serde_json = "1"
syntect = { version = "5", default-features = false, features = ["default-fancy"] }
tokio = { version = "1", features = ["rt", "macros", "sync", "time"] }
tokio-stream = "0.1"
tui-textarea-2 = "*"
zeroize = "1"
