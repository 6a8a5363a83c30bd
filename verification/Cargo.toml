[package]
name = "henry_whisper"
version = "0.1.0"
edition = "2021"
publish = false

[dependencies]
hound = "=3.5.1"
base64 = "=0.22.1"
serde = { version = "=1.0.229", features = ["derive"] }
serde_json = "=1.0.154"
anyhow = "=1.0.104"
tracing = "=0.1.44"
tracing-subscriber = { version = "=0.3.23", features = ["env-filter"] }
crossbeam-channel = "=0.5.17"
tokio = { version = "=1.54.1", features = ["rt", "sync", "time", "macros"] }
arboard = "=3.7.0"
reqwest = { version = "=0.13.5", features = ["json"] }
async-openai = { version = "=0.43.0", features = ["audio"] }
cpal = "=0.18.2"
rodio = "=0.23.0"
enigo = "=0.6.1"
syn = { version = "=2.0.119", features = ["full"] }
quote = "=1.0.47"
proc-macro2 = "=1.0.107"
