[package]
name = "shell_sorter"
version = "0.1.0"
edition = "2021"
publish = false

[dependencies]
regex = "*"
uuid = { version = "*", features = ["v4"] }
image = { version = "*", default-features = false, features = ["jpeg"] }
tokio = { version = "*", features = ["full"] }
reqwest = { version = "*", default-features = false, features = ["json"] }
axum = "*"
serde = { version = "*", features = ["derive"] }
serde_json = "*"
clap = { version = "*", features = ["derive"] }
chrono = "*"
dirs = "*"
thiserror = "*"
tracing = "*"
tracing-subscriber = { version = "*", features = ["env-filter"] }
tower-http = { version = "*", features = ["fs"] }
nokhwa = { version = "*", features = ["input-v4l"] }
