[package]
name = "nitor-vault"
version = "0.1.0"
edition = "2021"
publish = false

[dependencies]
aes-gcm = "=0.10.3"
anyhow = "=1.0.104"
aws-config = { version = "=1.12.0", features = ["behavior-version-latest"] }
aws-sdk-cloudformation = "=1.131.0"
aws-sdk-kms = "=1.123.0"
aws-sdk-s3 = "=1.152.0"
aws-sdk-sts = "=1.119.0"
aws-types = "=1.6.0"
base64 = "=0.22.1"
rand = "=0.8.8"
serde = { version = "=1.0.229", features = ["derive"] }
serde_json = "=1.0.154"
thiserror = "=1.0.69"
tokio = { version = "=1.54.1", features = ["macros", "rt-multi-thread"] }
