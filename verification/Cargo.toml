[package]
name = "fs_change_detector"
version = "0.1.0"
edition = "2021"
publish = false

[dependencies]
message-channel = "*"
notify = "*"
thiserror = "*"
tracing = "*"

[dev-dependencies]
tempfile = "*"
