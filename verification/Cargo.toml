[package]
name = "workload_supervisor"
version = "0.1.0"
edition = "2021"
publish = false

[dependencies]
rocket = { version = "0.5", features = ["json"] }
mc-query = "*"
thiserror = "1"
dotenvy = "0.15"
