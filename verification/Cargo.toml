[package]
name = "inference_server"
version = "0.1.0"
edition = "2021"
publish = false

[dependencies]
image = "=0.25.10"
warp = "=0.4.3"
tokio = { version = "=1.53.2", features = ["macros", "rt-multi-thread", "sync"] }
clap = { version = "=4.6.7", features = ["derive"] }
log = "=0.4.34"
env_logger = "=0.11.11"
