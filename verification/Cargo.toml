[package]
name = "novavm"
version = "0.1.0"
edition = "2021"
publish = false

[dependencies]
uuid = { version = "1", features = ["v4", "serde"] }
chrono = { version = "0.4", features = ["serde"] }
zstd = "0.13"
aes-gcm = "0.10"
zeroize = { version = "1", features = ["derive"] }
serde = { version = "1", features = ["derive"] }
serde_json = "1"
thiserror = "1"
anyhow = "1"
tracing = "0.1"
parking_lot = "0.12"
dashmap = "6"
tokio = { version = "1", features = ["rt-multi-thread", "macros", "sync", "time", "fs", "process"] }
async-trait = "0.1"
sysinfo = "0.31"
ipnet = { version = "2", features = ["serde"] }
base64 = "0.22"
dirs-next = "2"
libc = "0.2"
kvm-ioctls = "*"
kvm-bindings = "*"
