[package]
name = "difftester"
version = "0.1.0"
edition = "2021"
publish = false

[dependencies]
clap = { version = "4.5.37", features = ["derive"] }
tokio = { version = "1", features = ["full"] }
futures = { version = "0.3.31" }
tempfile = { version = "3.19.1" }
