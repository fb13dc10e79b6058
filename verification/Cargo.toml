[package]
name = "asn_lookup"
version = "0.1.0"
edition = "2021"
publish = false

[dependencies]
chrono = "=0.4.45"
icann-rdap-client = "=0.0.19"
icann-rdap-common = "=0.0.19"
serde = { version = "=1.0.229", features = ["derive"] }
serde_json = "=1.0.154"
tokio = { version = "=1.54.1", features = ["full"] }
warp = "=0.3.7"
