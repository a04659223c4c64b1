[package]
name = "meeting_assistant"
version = "0.1.0"
edition = "2021"
publish = false

[dependencies]
block2 = "0.6"
chrono = { version = "0.4", default-features = false, features = ["clock", "std"] }
dirs = "*"
log = "0.4"
objc2 = "0.6"
objc2-event-kit = "0.3"
objc2-foundation = "0.3"
serde = { version = "1", features = ["derive"] }
serde_json = "1"
sysinfo = { version = "0.32", default-features = false, features = ["system"] }
tokio = { version = "1", features = ["rt", "sync", "time"] }
