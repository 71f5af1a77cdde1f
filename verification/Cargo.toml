[package]
name = "tars"
version = "0.1.0"
edition = "2021"
publish = false

[dependencies]
serde = { version = "1", features = ["derive"] }
serde_json = "1"
strip-ansi-escapes = "*"
sysinfo = "*"
anyhow = "1"
tokio = { version = "1", features = ["rt-multi-thread", "macros", "sync", "fs"] }
tokio-stream = "0.1"
async-stream = "0.3"
portable-pty = "*"
reqwest = { version = "*", default-features = false, features = ["json", "stream"] }
