[package]
name = "smpp_multipart"
version = "0.1.0"
edition = "2021"
publish = false

[dependencies]
futures = "=0.3.34"
rusmpp = { version = "=0.4.0", features = ["extra"] }
rusmppc = { version = "=0.4.0", default-features = false }
serde = { version = "=1.0.229", features = ["derive"] }
serde_json = "=1.0.151"
tokio = { version = "=1.53.2", features = ["rt-multi-thread", "macros", "sync", "time"] }
url = "=2.5.8"
