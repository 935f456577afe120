[package]
name = "system_benchmark"
version = "0.1.0"
edition = "2021"
publish = false

[dependencies]
clap = "*"
serde_json = "*"
tch = "*"
tokio = { version = "*", features = ["rt-multi-thread", "time", "net", "io-util"] }
