[package]
name = "ecs_remote"
version = "0.1.0"
edition = "2021"
publish = false

[dependencies]
anyhow = "1"
aws-config = "1"
aws-sdk-ecs = "1"
clap = { version = "4", features = ["derive"] }
dialoguer = "0.11"
tokio = { version = "1", features = ["macros", "rt-multi-thread"] }
