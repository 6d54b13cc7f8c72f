[package]
name = "glacier_retrieval"
version = "0.1.0"
edition = "2021"
publish = false

[dependencies]
aws-config = "1"
aws-sdk-glacier = "1"
tokio = { version = "1", features = ["macros", "rt-multi-thread", "time"] }
