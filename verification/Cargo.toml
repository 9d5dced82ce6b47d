[package]
name = "azure-aitoolsconnect"
version = "0.1.0"
edition = "2021"
publish = false

[dependencies]
async-trait = "=0.1.92"
chrono = { version = "=0.4.45", features = ["serde"] }
clap = { version = "=4.6.7", features = ["derive", "env"] }
console = "=0.15.11"
dotenvy = "=0.15.7"
indicatif = "=0.17.11"
oauth2 = { version = "=4.4.2", default-features = false }
reqwest = { version = "=0.11.27", default-features = false, features = ["json", "multipart", "rustls-tls"] }
serde = { version = "=1.0.229", features = ["derive"] }
serde_json = { version = "=1.0.154", features = ["preserve_order"] }
thiserror = "=1.0.69"
tokio = { version = "=1.54.1", features = ["rt-multi-thread", "macros", "time", "net", "sync"] }
toml = "=0.8.23"
url = "=2.5.8"
