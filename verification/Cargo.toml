[package]
name = "gcp_rapid"
version = "0.1.0"
edition = "2021"
publish = false

[dependencies]
async-trait = "0.1"
bytes = "1"
chrono = { version = "0.4", default-features = false, features = ["std"] }
futures-util = "0.3"
google-api-proto = { version = "1.710", features = ["google-storage-v2"] }
http = "1"
prost = "0.13"
tokio = { version = "1", features = ["sync"] }
tonic = { version = "0.12", features = ["tls"] }
