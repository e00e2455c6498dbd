[package]
name = "sig_tool"
version = "0.1.0"
edition = "2021"
publish = false

[dependencies]
blst = "0.3"
k256 = "0.13"
rand = "0.8"
hex = "0.4"
clap = { version = "4", features = ["derive"] }
dirs = "5"
serde = { version = "1", features = ["derive"] }
serde_json = "1"
thiserror = "1"
