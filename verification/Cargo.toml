[package]
name = "privsep_ssh"
version = "0.1.0"
edition = "2021"
publish = false

[dependencies]
eyre = "0.6"
futures = "0.3"
rustix = { version = "0.38", features = ["net"] }
tokio = { version = "1", features = ["io-util", "macros", "net", "process", "rt", "sync"] }
tracing = "0.1"
users = "0.11"

[dev-dependencies]
postcard = { version = "1", features = ["alloc"] }
