[package]
name = "pinnothera"
version = "0.1.0"
edition = "2021"
publish = false

[dependencies]
serde = { version = "*", features = ["derive"] }
serde_json = "*"
serde_yaml = "*"
clap = { version = "*", features = ["derive"] }
tokio = { version = "*", features = ["rt-multi-thread", "macros", "fs"] }
futures-util = "*"
aws-config = "*"
aws-sdk-sns = "*"
aws-sdk-sqs = "*"
aws-sdk-sts = "*"
