[package]
name = "tunnelproxy-edge"
version = "0.1.0"
edition = "2021"
publish = false

[dependencies]
base64 = "=0.22.1"
bytes = "=1.12.1"
getrandom = "=0.2.17"
http-body-util = "=0.1.5"
hyper = { version = "=1.12.0", features = ["client", "http1", "http2", "server"] }
hyper-util = { version = "=0.1.21", features = ["tokio"] }
rustls = { version = "=0.23.46", default-features = false, features = ["ring", "std", "tls12"] }
rustls-pemfile = "=2.2.0"
serde = { version = "=1.0.229", features = ["derive"] }
serde_json = "=1.0.154"
sha1 = "=0.10.7"
tokio = { version = "=1.54.1", features = ["fs", "io-util", "macros", "net", "rt-multi-thread", "signal", "sync", "time"] }
tokio-rustls = { version = "=0.26.6", default-features = false, features = ["ring", "tls12"] }
tracing = "=0.1.44"

[dev-dependencies]
rcgen = { version = "0.13", default-features = false, features = ["pem", "ring"] }
