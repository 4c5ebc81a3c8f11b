[package]
name = "chat_loop"
version = "0.1.0"
edition = "2021"
publish = false

[dependencies]
ollama-rs = "*"
tokio = { version = "1", features = ["macros", "rt-multi-thread"] }
