[package]
name = "unit3d_announce"
version = "0.1.0"
edition = "2021"
publish = false

[dependencies]
anyhow = "1"
arc-swap = "1"
axum = "0.8"
chrono = "0.4"
dotenvy = "0.15"
futures-util = "0.3"
indexmap = "2"
memchr = "2"
parking_lot = "0.12"
rand = "0.9"
rayon = "1"
serde = { version = "1", features = ["derive"] }
serde_bytes = "0.11"
serde_repr = "0.1"
sqlx = { version = "0.8", default-features = false, features = ["mysql", "runtime-tokio", "chrono", "derive"] }
thiserror = "2"
tikv-jemallocator = "0.6"
tokio = { version = "1", features = ["full"] }
tracing = "0.1"
tracing-subscriber = { version = "0.3", features = ["env-filter"] }
