[package]
name = "efence"
version = "0.1.0"
edition = "2021"
publish = false

[dependencies]
network-types = "=0.2.0"
aya = "=0.13.1"
aya-log = "=0.2.1"
aya-ebpf = "=0.1.1"
aya-log-ebpf = "=0.1.0"
clap = { version = "=4.6.7", features = ["derive"] }
env_logger = "=0.11.11"
log = "=0.4.35"
libc = "=0.2.191"
tokio = { version = "=1.54.1", features = ["macros", "rt-multi-thread", "signal", "net", "sync", "io-util"] }
serde = { version = "=1.0.229", features = ["derive"] }
serde_yaml = "=0.9.34"
chrono = "=0.4.45"
anyhow = "=1.0.104"
