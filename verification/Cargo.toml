[package]
name = "cloudtui"
version = "0.1.0"
edition = "2021"
publish = false

[dependencies]
anyhow = "=1.0.104"
async-trait = "=0.1.92"
aws-config = { version = "=1.12.0", default-features = false, features = ["behavior-version-latest", "rt-tokio"] }
aws-sdk-kinesis = { version = "=1.125.0", default-features = false, features = ["rt-tokio"] }
crossterm = "=0.25.0"
tokio = { version = "=1.53.2", features = ["macros", "rt-multi-thread", "sync", "time"] }
tui = "=0.19.0"
