[package]
name = "nyancat"
version = "0.1.0"
edition = "2021"
publish = false

[dependencies]
anyhow = "*"
axum = { version = "*", features = ["ws"] }
axum-extra = { version = "*", features = ["typed-header"] }
clap = { version = "*", features = ["derive"] }
crossterm = "*"
futures = "*"
serde = { version = "*", features = ["derive"] }
serde_json = "*"
serde_repr = "*"
tokio = { version = "*", features = ["rt-multi-thread", "macros", "net", "time", "io-util", "sync"] }
tower-http = { version = "*", features = ["trace"] }
tracing = "*"
tracing-subscriber = { version = "*", features = ["env-filter"] }
