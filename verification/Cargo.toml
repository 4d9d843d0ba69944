[package]
name = "client_pipeline"
version = "0.1.0"
edition = "2021"
publish = false

[dependencies]
chrono = { version = "0.4", features = ["serde"] }
futures-util = "0.3"
headers = "0.4"
hyper = "1"
hyper-util = { version = "0.1", features = ["client-legacy", "http1", "tokio"] }
libc = "0.2"
opentelemetry = "0.24"
opentelemetry-semantic-conventions = "0.16"
rand = "0.8"
rand_chacha = "0.3"
serde = { version = "1", features = ["derive"] }
serde_with = "3"
tokio = { version = "1", features = ["macros", "rt", "signal", "sync", "time"] }
tower = { version = "0.5", features = ["limit", "util"] }
tower-http = { version = "0.6", features = ["follow-redirect", "set-header"] }
tracing = "0.1"
ulid = { version = "~1.1", features = ["serde"] }
url = "2"
