[package]
name = "catalog_bench"
version = "0.1.0"
edition = "2021"
publish = false

[dependencies]
axum = "0.6"
brotli = "*"
chrono = { version = "0.4", features = ["serde", "rkyv"] }
fake = "2"
flate2 = "1"
rand = "0.8"
rkyv = { version = "0.7", features = ["uuid"] }
serde = { version = "1", features = ["derive"] }
serde_json = "1"
tokio = { version = "1", features = ["full"] }
uuid = { version = "1", features = ["v4", "serde"] }
zstd = "*"
