[package]
name = "wekan_cli"
version = "0.1.0"
edition = "2021"
publish = false

[dependencies]
chrono = "=0.4.45"
clap = { version = "=4.6.7", features = ["derive"] }
clap-verbosity-flag = "=3.0.4"
env_logger = "=0.11.11"
log = "=0.4.34"
reqwest = { version = "=0.13.5", default-features = false, features = ["json", "form"] }
rpassword = "=7.5.4"
serde = { version = "=1.0.229", features = ["derive"] }
serde_yaml = "=0.9.34"
tokio = { version = "=1.53.2", features = ["rt-multi-thread", "macros", "fs", "io-util"] }
