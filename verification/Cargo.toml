[package]
name = "tls_uring"
version = "0.1.0"
edition = "2021"
publish = false

[dependencies]
rustls = { version = "0.23", default-features = false, features = ["ring", "std", "tls12"] }
tokio-uring = "*"
tokio = { version = "1", default-features = false, features = ["net"] }

[dev-dependencies]
rcgen = { version = "0.13", default-features = false, features = ["ring", "pem"] }
