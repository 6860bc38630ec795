[package]
name = "aura"
version = "0.1.0"
edition = "2021"
publish = false

[dependencies]
serde = { version = "=1.0.229", features = ["derive"] }
serde_json = "=1.0.154"
tokio = { version = "=1.54.1", features = ["rt-multi-thread", "macros", "fs", "process", "sync", "time"] }
reqwest = { version = "=0.12.28", default-features = false, features = ["json", "rustls-tls"] }
walkdir = "=2.5.0"
image = { version = "=0.25.10", default-features = false, features = ["jpeg", "png"] }
libc = "=0.2.191"
open = "=5.4.5"
zbus = "5"
ksni = "0.3"
