[package]
name = "bundler"
version = "0.1.0"
edition = "2021"
publish = false

[dependencies]
ethers = { version = "=2.0.14", default-features = false }
bigdecimal = "=0.4.11"
base64 = "=0.21.7"
rand = "=0.8.8"
serde = { version = "=1.0.229", features = ["derive"] }
serde_json = "=1.0.154"
actix-web = { version = "=4.18.1", default-features = false, features = ["macros"] }
log = "=0.4.35"
env_logger = "=0.10.2"
dotenvy = "=0.15.7"
futures = "=0.3.34"
reqwest = { version = "=0.11.27", default-features = false, features = ["json"] }
jwks-client = "*"
