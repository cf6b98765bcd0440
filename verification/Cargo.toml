[package]
name = "ebsentinel_core"
version = "0.1.0"
edition = "2021"
publish = false

[dependencies]
anyhow = "=1.0.104"
aya = "=0.13.1"
aya-ebpf = "=0.1.1"
aya-log = "=0.2.1"
bincode = "=1.3.3"
burn = { version = "=0.16.1", default-features = false, features = ["std", "wgpu", "dataset"] }
clap = { version = "=4.6.7", features = ["derive"] }
env_logger = "=0.11.11"
libc = "=0.2.191"
log = "=0.4.34"
rusqlite = { version = "=0.41.0", features = ["bundled"] }
serde = { version = "=1.0.229", features = ["derive"] }
serde_bytes = "=0.11.19"
tokio = { version = "=1.54.1", features = ["macros", "rt", "rt-multi-thread", "sync", "time", "signal"] }
