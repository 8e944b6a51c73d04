[package]
name = "reservation"
version = "0.1.0"
edition = "2021"
publish = false

[dependencies]
anyhow = "1"
async-trait = "0.1"
chrono = { version = "0.4", default-features = false, features = ["std"] }
futures = "0.3"
futures-core = "0.3"
http = "0.2"
prost = "0.11"
prost-types = "0.11"
regex = "1"
serde = { version = "1", features = ["derive"] }
serde_yaml = "0.9"
shellexpand = "3"
sqlx = { version = "0.6", features = ["runtime-tokio-rustls", "postgres", "chrono"] }
thiserror = "1"
tokio = { version = "1", features = ["full"] }
tonic = "0.8"
tracing = "0.1"
