[package]
name = "disco"
version = "0.1.0"
edition = "2021"
publish = false

[dependencies]
anyhow = "=1.0.104"
async-trait = "=0.1.92"
base64 = "=0.22.1"
base64ct = { version = "=1.8.3", features = ["alloc"] }
clap = { version = "=4.6.7", features = ["derive", "env"] }
config = { version = "=0.15.27", default-features = false, features = ["json", "toml"] }
openraft = { version = "=0.9.25", features = ["generic-snapshot-data", "single-term-leader", "storage-v2"] }
prost = "=0.13.5"
rhai = { version = "=1.27.0", features = ["sync"] }
russh = { version = "=0.60.3", default-features = false, features = ["ring"] }
rustls = { version = "=0.23.46", default-features = false, features = ["ring", "std", "tls12", "logging"] }
serde = { version = "=1.0.229", features = ["derive"] }
serde_json = "=1.0.154"
ssh-key = "=0.6.7"
tokio = { version = "=1.54.1", features = ["full"] }
tonic = { version = "=0.13.1", features = ["tls-ring"] }
tracing = "=0.1.44"
tracing-subscriber = { version = "=0.3.23", features = ["env-filter"] }
