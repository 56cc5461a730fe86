[package]
name = "registry_cache"
version = "0.1.0"
edition = "2021"
publish = false

[dependencies]
hex = "0.4"
sha2 = "0.10"
time = { version = "0.3", features = ["parsing"] }
actix-web = "4"
async-broadcast = "0.5"
clap = { version = "4", features = ["derive", "env"] }
compact_str = { version = "0.7", features = ["serde"] }
dkregistry = "*"
futures = "0.3"
once_cell = "1"
prometheus = "0.13"
rusoto_core = "0.48"
rusoto_credential = "0.48"
rusoto_s3 = "0.48"
serde = { version = "1", features = ["derive"] }
serde_json = "1"
tokio = { version = "1", features = ["sync"] }
tracing = "0.1"
