[package]
name = "damsel_core"
version = "0.1.0"
edition = "2021"
publish = false

[dependencies]
capstone = { version = "=0.14.0", default-features = false, features = ["full", "std", "arch_arm64"] }
thiserror = "=2.0.21"
memmap2 = "=0.9.12"
clap = { version = "=4.6.7", features = ["derive"] }
serde = { version = "=1.0.229", features = ["derive"] }
serde_json = "=1.0.154"
tokio = { version = "=1.54.1", features = ["rt-multi-thread", "macros", "net", "signal"] }
axum = { version = "=0.8.9", features = ["multipart"] }
webbrowser = "=1.2.6"
