[package]
name = "tuidui"
version = "0.1.0"
edition = "2021"
publish = false

[dependencies]
anyhow = "1"
async-openai = "0.24"
chrono = "0.4"
colored = "2"
crossterm = "0.28"
dotenv = "0.15"
include_dir = "0.7"
ratatui = "0.28"
serde = { version = "1", features = ["derive"] }
serde_json = "1"
sqlx = { version = "0.8", default-features = false, features = ["postgres", "runtime-tokio"] }
tokio = { version = "1", features = ["full"] }
uuid = "1"
