[package]
name = "milkman"
version = "0.1.0"
edition = "2021"
publish = false

[dependencies]
serde_json = "1"
axum = { version = "0.6", features = ["ws"] }
tokio = { version = "1", features = ["macros", "rt-multi-thread", "signal"] }
tokio-tungstenite = "0.20"
futures = "0.3"
jni = "0.21"
maud = "0.25"
