[package]
name = "tsight_agent"
version = "0.1.0"
edition = "2021"
publish = false

[dependencies]
regex = "*"
serde = { version = "*", features = ["derive"] }
serde_json = "*"
anyhow = "*"
async-trait = "*"
clickhouse = "*"
config = "*"
env_logger = "*"
log = "*"
reqwest = { version = "*", default-features = false, features = ["json"] }
thiserror = "*"
tokio = { version = "*", features = ["macros", "rt-multi-thread", "time"] }
