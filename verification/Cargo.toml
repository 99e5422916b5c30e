[package]
name = "video_snapshot"
version = "0.1.0"
edition = "2021"
publish = false

[dependencies]
axum = "*"
dotenv = "*"
image = { version = "*", default-features = false, features = ["png"] }
reqwest = { version = "*", default-features = false, features = ["json"] }
serde = { version = "*", features = ["derive"] }
serde_json = "*"
sysinfo = "*"
tempfile = "*"
tokio = { version = "*", features = ["rt-multi-thread", "macros", "time", "net", "process", "fs"] }
tower-http = { version = "*", features = ["fs", "cors"] }
tracing = "*"
tracing-subscriber = "*"
uuid = { version = "*", features = ["v4"] }
