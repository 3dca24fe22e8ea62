[package]
name = "oscript"
version = "0.1.0"
edition = "2021"
publish = false

[dependencies]
clap = { version = "=4.6.7", features = ["string"] }
clap_complete = "=4.6.11"
tokio = { version = "=1.53.2", features = ["rt-multi-thread", "macros"] }
