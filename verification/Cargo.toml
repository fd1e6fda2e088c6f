[package]
name = "zenpaws"
version = "0.1.0"
edition = "2021"
publish = false

[dependencies]
uuid = { version = "1", features = ["v4"] }
sha2 = "0.10"
base64 = "0.22"
tokio = { version = "1", features = ["rt-multi-thread", "macros", "net", "io-util", "sync", "time"] }
rustls = { version = "0.23", default-features = false, features = ["ring", "std", "tls12", "logging"] }
rcgen = "0.14"
tokio-rustls = { version = "0.26", default-features = false, features = ["ring", "logging", "tls12"] }
mdns-sd = "*"
rusqlite = { version = "*", features = ["bundled"] }
bincode = "1"
serde = { version = "1", features = ["derive"] }
serde_json = "1"
thiserror = "2"
