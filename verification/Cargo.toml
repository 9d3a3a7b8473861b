[package]
name = "ollama_chat"
version = "0.1.0"
edition = "2021"
publish = false

[dependencies]
ollama-rs = { version = "*", features = ["stream"] }
tokio = { version = "*", features = ["macros", "rt"] }
tokio-stream = "*"
futures = "*"
