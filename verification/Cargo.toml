[package]
name = "uv-publish"
version = "0.1.0"
edition = "2021"
publish = false

[dependencies]
async-compression = { version = "0.4", features = ["gzip", "tokio"] }
base64 = "0.22"
fs-err = { version = "2", features = ["tokio"] }
futures = "0.3"
glob = "0.3"
itertools = "0.13"
reqwest = { version = "0.12", default-features = false, features = ["multipart", "stream"] }
reqwest-middleware = { version = "0.3", features = ["multipart"] }
rustc-hash = "2"
serde_json = "1"
sha2 = "0.10"
thiserror = "1"
tokio = { version = "1", features = ["fs", "io-util"] }
tokio-tar = "0.3"
tokio-util = { version = "0.7", features = ["io"] }
tracing = "0.1"
url = "2"
