[package]
name = "jaegercat"
version = "0.1.0"
edition = "2021"
publish = false

[dependencies]
chrono = "0.4"
clap = { version = "4", features = ["derive"] }
env_logger = "*"
log = "0.4"
serde = { version = "1", features = ["derive"] }
serdeconv = "*"
thrift_codec = "*"
trackable = "*"
