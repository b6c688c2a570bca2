[package]
name = "scylla"
version = "0.1.0"
edition = "2021"
publish = false

[dependencies]
byteorder = "=1.5.0"
bytes = "=1.12.1"
futures = "=0.3.34"
lz4_flex = "*"
quote = "=1.0.47"
snap = "*"
syn = "=3.0.9"
thiserror = "=2.0.21"
tokio = { version = "=1.54.1", features = ["io-util", "net", "rt", "sync", "time"] }
uuid = "=1.29.0"
