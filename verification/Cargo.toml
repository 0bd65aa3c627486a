[package]
name = "stock_stats"
version = "0.1.0"
edition = "2021"
publish = false

[dependencies]
chrono = "*"
clap = "*"
time = "*"
yahoo_finance_api = { version = "*", features = ["blocking"] }
