[package]
name = "pmp_deploy"
version = "0.1.0"
edition = "2021"
publish = false

[dependencies]
anyhow = "=1.0.104"
serde = { version = "=1.0.229", features = ["derive"] }
serde_json = "=1.0.154"
serde_yaml = "=0.9.34"
regex = "=1.13.1"
clap = { version = "=4.6.7", features = ["derive"] }
tokio = { version = "=1.54.1", features = ["rt-multi-thread", "macros", "process", "time", "fs", "io-util"] }
shellexpand = "=3.1.2"
directories = "=5.0.1"
base64 = "=0.22.1"
which = "=6.0.3"
dialoguer = "=0.11.0"
tracing = "=0.1.44"
tracing-subscriber = { version = "=0.3.23", features = ["env-filter", "json"] }
async-trait = "0.1"
thiserror = "1"
aws-config = { version = "1", features = ["behavior-version-latest"] }
aws-sdk-ecs = "1"
aws-sdk-lambda = "1"
aws-sdk-s3 = "1"
aws-sdk-elasticloadbalancingv2 = "1"
aws-sdk-cloudwatchlogs = "1"
aws-sdk-applicationautoscaling = "1"
reqwest = { version = "0.12", default-features = false, features = ["json", "rustls-tls"] }
tera = { version = "1", default-features = false }
zip = { version = "2", default-features = false, features = ["deflate"] }
