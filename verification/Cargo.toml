[package]
name = "autodeployment"
version = "0.1.0"
edition = "2021"
publish = false

[dependencies]
anyhow = "=1.0.104"
chrono = "=0.4.45"
clap = { version = "=4.6.7", features = ["derive"] }
dirs = "=5.0.1"
dotenv = "=0.15.0"
env_logger = "=0.10.2"
git2 = "=0.18.3"
log = "=0.4.34"
regex = "=1.13.1"
reqwest = { version = "=0.11.27", features = ["json"] }
serde = { version = "=1.0.229", features = ["derive"] }
serde_json = { version = "=1.0.154", features = ["raw_value"] }
tempfile = "=3.27.0"
tokio = { version = "=1.54.1", features = ["full"] }
walkdir = "=2.5.0"
which = "=4.4.2"
