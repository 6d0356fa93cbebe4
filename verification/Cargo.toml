[package]
name = "concourse_s3_no_check_resource"
version = "0.1.0"
edition = "2021"
publish = false

[dependencies]
aws-config = "=0.101.0"
aws-sdk-s3 = "=0.38.0"
bytes = "=1.12.1"
concourse-resource = "=0.3.0"
glob = "=0.3.4"
regex = "=1.13.1"
serde = { version = "=1.0.229", features = ["derive"] }
serde_json = "=1.0.154"
serde_regex = "=1.2.0"
tokio = { version = "=1.54.1", features = ["rt-multi-thread", "fs", "io-util"] }
tokio-stream = "=0.1.19"
