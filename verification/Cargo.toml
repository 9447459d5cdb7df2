[package]
name = "codespace"
version = "0.6.0"
edition = "2021"
publish = false

[dependencies]
sha2 = "0.10"
hex = "0.4"
serde = { version = "1", features = ["derive"] }
serde_json = "1"
schemars = "*"
tokio = { version = "1", features = ["rt-multi-thread", "macros", "process", "io-util", "net", "sync", "time", "fs"] }
notify = "*"
libc = "0.2"
rustix = { version = "*", features = ["fs"] }
