[package]
name = "musicgpt"
version = "0.1.0"
edition = "2021"
publish = false

[dependencies]
regex = "1"
anyhow = "1"
clap = { version = "4", features = ["derive"] }
directories = "5"
indicatif = "0.17"
rustyline = "14"
tokio = { version = "1", features = ["fs"] }
tracing = "0.1"
ort = { version = "2.0.0-rc.15", default-features = false }
