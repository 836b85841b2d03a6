[package]
name = "logsink"
version = "0.1.0"
edition = "2021"
publish = false

[dependencies]
chrono = "=0.4.45"
libc = "=0.2.191"
log = { version = "=0.4.34", features = ["std"] }
owo-colors = "=4.4.0"
serde = "=1.0.229"
thiserror = "=1.0.69"
