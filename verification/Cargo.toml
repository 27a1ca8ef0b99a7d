[package]
name = "trading_engine"
version = "0.1.0"
edition = "2021"
publish = false

[dependencies]
base64 = "0.13"
bcrypt = "0.15"
ring = "0.17"
chrono = "0.4"
diesel = { version = "1.4", features = ["sqlite"] }
druid = "0.8"
log = "0.4"
simplelog = "0.12"
thiserror = "1"
