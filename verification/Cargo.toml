[package]
name = "protocol"
version = "0.1.0"
edition = "2021"
publish = false

[dependencies]
async-trait = "=0.1.92"
bytes = "=1.12.1"
chrono = "=0.4.45"
futures = "=0.3.34"
native-tls = "=0.2.18"
num_cpus = "=1.17.0"
parking_lot = "=0.12.5"
pingora-load-balancing = "=0.6.0"
pingora-memory-cache = "=0.6.0"
pingora-pool = "=0.6.0"
prost = "=0.13.5"
rand = "=0.8.8"
reqwest = { version = "=0.12.28", default-features = false }
rmp-serde = "=1.3.1"
serde = { version = "=1.0.229", features = ["derive"] }
serde_json = "=1.0.154"
serde_yaml = "=0.9.34+deprecated"
tempfile = "=3.27.0"
thiserror = "=1.0.69"
tokio = { version = "=1.54.1", features = ["full"] }
tokio-native-tls = "=0.3.1"
tokio-stream = "=0.1.19"
toml = "=0.8.23"
tonic = "=0.12.3"
tracing = "=0.1.44"
uuid = { version = "=1.29.0", features = ["v4"] }
