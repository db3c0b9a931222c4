[package]
name = "charset_worker"
version = "0.1.0"
edition = "2021"
publish = false

[dependencies]
chardetng = "=0.1.17"
encoding_rs = "=0.8.44"
arrow-array = "=60.1.0"
arrow-schema = "=60.1.0"
env_logger = "=0.11.11"
