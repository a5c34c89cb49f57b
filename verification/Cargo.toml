[package]
name = "email_tester"
version = "0.1.0"
edition = "2021"
publish = false

[dependencies]
lettre = "0.11"
anyhow = "1"
chrono = "0.4"
clap = { version = "4", features = ["derive", "env"] }
colored = "2"
dirs = "5"
env_logger = "0.11"
hostname = "0.4"
log = "0.4"
rpassword = "7"
serde = { version = "1", features = ["derive"] }
serde_json = "1"
toml = "0.8"
