[package]
name = "gitwise"
version = "0.1.0"
edition = "2021"
publish = false

[dependencies]
anyhow = "1"
async-openai = "0.17"
clap = { version = "4", features = ["derive"] }
dotenv = "0.15"
git2 = { version = "0.18", default-features = false }
serde_json = "1"
tokio = { version = "1", features = ["full"] }

[dev-dependencies]
tempfile = "3"
