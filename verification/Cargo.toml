[package]
name = "authgate"
version = "0.1.0"
edition = "2021"
publish = false

[dependencies]
uuid = { version = "*", features = ["v4"] }
iron = "*"
router = "*"
bodyparser = "*"
logger = "*"
log = "*"
simplelog = "*"
redis = "*"
openldap = "*"
serde = { version = "*", features = ["derive"] }
serde_json = "*"
toml = "*"
clap = "*"
