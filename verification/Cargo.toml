[package]
name = "mxatools"
version = "0.1.0"
edition = "2021"
publish = false

[dependencies]
serde_json = "1"
clap = { version = "4", features = ["derive"] }
colored = "2"
curl = "0.4"
dirs = "5"
flexi_logger = "*"
log = "0.4"
