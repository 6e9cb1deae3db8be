[package]
name = "block_metrics"
version = "0.1.0"
edition = "2021"
publish = false

[dependencies]
bitcoincore-rpc = "*"
chrono = "0.4"
clap = { version = "4", features = ["derive"] }
dotenv = "0.15"
lazy_static = "1"
