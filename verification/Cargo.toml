[package]
name = "undertone"
version = "0.1.0"
edition = "2021"
publish = false

[dependencies]
regex = "*"
serde = { version = "*", features = ["derive"] }
serde_json = "*"
thiserror = "*"
anyhow = "*"
tokio = { version = "*", features = ["rt", "macros", "net", "io-util", "sync", "time", "signal"] }
tracing = "*"
tracing-subscriber = { version = "*", features = ["env-filter"] }
toml = "*"
directories = "*"
libc = "*"
rusqlite = { version = "*", features = ["bundled"] }
parking_lot = "*"
pipewire = "*"
libspa = "*"
rusb = "*"
