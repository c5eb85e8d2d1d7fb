[package]
name = "rustic"
version = "0.1.0"
edition = "2021"
publish = false

[dependencies]
sha1 = "0.10"
clap = "4"
log = "0.4"
env_logger = "0.11"
tempdir = "0.3"
