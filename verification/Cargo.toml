[package]
name = "tls_acceptor"
version = "0.1.0"
edition = "2021"
publish = false

[dependencies]
tokio-rustls = "=0.24.1"
rustls-pemfile = "=1.0.4"
mime_guess = "=2.0.5"
serde = { version = "=1.0.229", features = ["derive"] }
serde_json = "=1.0.154"
tokio = { version = "=1.54.1", features = ["net", "rt", "time", "sync", "io-util"] }
tracing = "=0.1.44"

[dev-dependencies]
rcgen = "0.12"
