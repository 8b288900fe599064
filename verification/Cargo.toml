[package]
name = "proxy"
version = "0.1.0"
edition = "2021"
publish = false

[dependencies]
env_logger = "=0.11.11"
http = "=0.2.12"
hyper = { version = "0.14", features = ["full"] }
regex = "=1.13.1"
simple_proxy = "=1.3.4"
structopt = "=0.3.26"
tokio = { version = "1", features = ["full"] }
