[package]
name = "git_cli"
version = "0.2.0"
edition = "2021"
publish = false

[dependencies]
clap = "4"
dirs = "5"
env_logger = "0.11"
inquire = "0.7"
log = "0.4"
serde = { version = "1", features = ["derive"] }
serde_json = "1"
thiserror = "1"
tokio = { version = "1", features = ["macros", "rt-multi-thread"] }
toml = "0.8"
