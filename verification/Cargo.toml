[package]
name = "crs"
version = "0.1.0"
edition = "2021"
publish = false

[dependencies]
clap = { version = "4", features = ["derive", "env"] }
codex-app-server-protocol = "0.63.0"
codex-protocol = "0.63.0"
errgonomic = "0.5"
fjall = "3"
futures = "0.3"
pulldown-cmark = "0.13"
rkyv = "0.8"
serde = { version = "1", features = ["derive"] }
serde_json = "1"
strum = { version = "0.28", features = ["derive"] }
thiserror = "2"
url = "2"
uuid = { version = "1", features = ["v4", "v7"] }
