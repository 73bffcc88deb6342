[package]
name = "pvr_core"
version = "0.1.0"
edition = "2021"
publish = false

[dependencies]
anyhow = "*"
clap = { version = "*", features = ["derive"] }
hound = "*"
ort = "=2.0.0-rc.13"
realfft = "*"
symphonia = "*"
tracing = "*"
tracing-subscriber = "*"
