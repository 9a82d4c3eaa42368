[package]
name = "ggsbot"
version = "0.1.0"
edition = "2021"
publish = false

[dependencies]
hex = "=0.4.3"
ed25519-dalek = "=2.2.0"
url = "=2.5.8"
dashmap = "=6.2.1"
chrono = "=0.4.45"
serde = { version = "=1.0.229", features = ["derive"] }
serde_json = "=1.0.154"
twilight-model = "=0.18.0"
twilight-gateway = { version = "=0.18.0", default-features = false }
worker = { version = "=0.8.7", features = ["queue"] }
reqwest = { version = "=0.13.5", default-features = false, features = ["json"] }
tokio = { version = "=1.54.1", features = ["macros", "rt-multi-thread", "sync", "time"] }
anyhow = "=1.0.104"
async-trait = "=0.1.92"
thiserror = "=2.0.21"
bitflags = "=2.13.2"
dotenv = "=0.15.0"
