[package]
name = "blob_gateway"
version = "0.1.0"
edition = "2021"
publish = false

[dependencies]
anyhow = "=1.0.104"
axum = { version = "=0.8.9", default-features = false, features = ["http1", "multipart", "tokio"] }
encoding_rs = "=0.8.35"
iroh = { version = "=1.4.1", default-features = false, features = ["tls-ring"] }
iroh-blobs = { version = "=0.103.1", default-features = false, features = ["fs-store"] }
rand = "=0.10.3"
serde = { version = "=1.0.229", features = ["derive"] }
serde_json = "=1.0.140"
tokio = { version = "=1.54.1", features = ["macros", "net", "rt-multi-thread", "signal"] }
tower-http = { version = "=0.6.11", features = ["cors"] }
