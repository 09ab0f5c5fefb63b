[package]
name = "indexvoice"
version = "0.1.0"
edition = "2021"
publish = false

[dependencies]
cpal = "=0.18.2"
hound = "=3.5.1"
vad-rs = "=0.1.5"
transcribe-rs = "=0.2.9"
async-openai = { version = "=0.42.1", features = ["audio"] }
tokio = { version = "=1.53.2", features = ["rt"] }
serde = { version = "=1.0.229", features = ["derive"] }
serde_json = "=1.0.151"
dotenvy = "=0.15.7"
