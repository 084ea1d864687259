[package]
name = "gitsitter"
version = "0.1.0"
edition = "2021"
publish = false

[dependencies]
anyhow = "=1.0.104"
chrono = "=0.4.45"
clap = { version = "=4.6.7", features = ["derive"] }
comfy-table = "=7.2.2"
crossterm = "=0.29.0"
dirs = "=7.0.0"
git2 = { version = "=0.21.0", default-features = false, features = ["vendored-libgit2"] }
indexmap = { version = "=2.14.2", features = ["serde"] }
libc = "=0.2.191"
notify = "=8.2.1"
reqwest = { version = "=0.13.5", default-features = false, features = ["json", "stream"] }
rusqlite = { version = "=0.41.1", features = ["bundled"] }
self-replace = "=1.5.1"
serde = { version = "=1.0.229", features = ["derive"] }
serde_json = "=1.0.154"
tokio = { version = "=1.54.1", features = ["full"] }
toml = "=1.1.8"
tracing = "=0.1.44"
tracing-appender = "=0.2.5"
tracing-subscriber = { version = "=0.3.23", features = ["env-filter"] }
windows-service = "*"
windows-sys = { version = "=0.61.2", features = ["Win32_Foundation", "Win32_Storage_FileSystem", "Win32_System_IO"] }

[dev-dependencies]
tempfile = "=3.27.0"
