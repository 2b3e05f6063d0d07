[package]
name = "nmos_control"
version = "0.1.0"
edition = "2021"
publish = false

[dependencies]
anyhow = "*"
axum = { version = "*", features = ["ws"] }
futures-util = "*"
gethostname = "*"
tokio = { version = "*", features = ["macros", "rt-multi-thread", "sync", "net", "time"] }
tracing = "*"
tracing-subscriber = { version = "*", features = ["env-filter"] }
uuid = { version = "*", features = ["v4"] }
