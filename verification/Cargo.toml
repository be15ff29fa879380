[package]
name = "automato"
version = "0.1.0"
edition = "2021"
publish = false

[dependencies]
hex = "=0.4.3"
serialport = { version = "=4.10.1", default-features = false }
serial = "=0.4.0"
clap = "=3.2.25"
serde = { version = "=1.0.229", features = ["derive"] }
serde_json = "=1.0.154"
toml = "=0.5.11"
simple-error = "=0.2.3"
log = "=0.4.34"
env_logger = "=0.9.3"
actix-web = { version = "4", default-features = false }
actix-files = "0.6"
