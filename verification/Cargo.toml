[package]
name = "poq"
version = "0.1.0"
edition = "2021"
publish = false

[dependencies]
clap = "*"
dialoguer = "*"
env_logger = "*"
handlebars = "*"
log = "*"
serde = { version = "*", features = ["derive"] }
serde_json = "*"
thiserror = "*"
tokio = { version = "*", features = ["full"] }
toml = "*"
