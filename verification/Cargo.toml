[package]
name = "quic_hyper_stunt"
version = "0.1.0"
edition = "2021"
publish = false

[dependencies]
rand = "0.8"
rustls = "0.21"
rustls-pemfile = "1"
quinn = "0.10"
webpki-roots = "0.25"
tokio = { version = "1", features = ["full"] }
bytes = "1"
http = "0.2"
hyper = { version = "0.14", features = ["client", "http1", "http2", "tcp"] }
hyper-rustls = { version = "0.24", features = ["http2"] }
tokio-rustls = "0.24"
rcgen = "0.11"
