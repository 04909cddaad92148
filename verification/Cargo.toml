[package]
name = "rctf"
version = "0.1.0"
edition = "2021"
publish = false

[dependencies]
anyhow = "1"
async-trait = "0.1"
clap = { version = "4", features = ["derive"] }
crossterm = { version = "0.27", features = ["event-stream"] }
directories = "5"
futures = "0.3"
russh = "0.40"
russh-keys = "0.40"
serde = { version = "1", features = ["derive"] }
serde_json = "1"
shlex = "1"
tabled = "0.15"
tokio = { version = "1", features = ["full"] }
