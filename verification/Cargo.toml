[package]
name = "async-lsp"
version = "0.2.1"
edition = "2021"
publish = false

[dependencies]
async-io = "2"
futures = "0.3"
lsp-types = "0.95"
pin-project-lite = "0.2"
rustix = { version = "1", features = ["fs", "process"] }
serde = { version = "1", features = ["derive"] }
serde_json = "1"
thiserror = "2"
tokio = { version = "1", features = ["net", "rt", "io-util", "sync", "time"] }
tower-layer = "0.3"
tower-service = "0.3"
tracing = "0.1"
waitpid-any = "*"
