[package]
name = "balladi_drive"
version = "0.1.0"
edition = "2021"
publish = false

[dependencies]
md-5 = "0.10"
sha2 = "0.10"
serde = { version = "1", features = ["derive"] }
serde_json = "1"
reqwest = { version = "0.12", default-features = false, features = ["json", "rustls-tls"] }
tokio = { version = "1", features = ["rt-multi-thread", "process", "time", "sync", "net", "io-util"] }
dirs = "5"
rand = "0.8"
sysinfo = "0.33"
open = "5"
regex = "1"
