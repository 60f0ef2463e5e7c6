[package]
name = "rustit"
version = "0.1.0"
edition = "2021"
publish = false

[dependencies]
regex = "1"
md5 = "0.7"
jwt = "0.16"
hmac = "0.12"
sha2 = "0.10"
rand = "0.8"
serde = { version = "1", features = ["derive"] }
serde_json = "1"
tokio = { version = "1", features = ["full"] }
tokio-stream = { version = "0.1", features = ["sync"] }
tokio-util = { version = "0.7", features = ["codec"] }
futures = "0.3"
axum = "0.7"
reqwest = { version = "0.12", default-features = false, features = ["blocking", "json", "multipart", "stream", "rustls-tls"] }
redb = "1"
chrono = "0.4"
lazy_static = "1"
libc = "0.2"
tonic = "0.12"
prost = "0.13"
prost-types = "0.13"
