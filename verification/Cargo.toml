[package]
name = "rust_code_analysis_web"
version = "0.1.0"
edition = "2021"
publish = false

[dependencies]
rust-code-analysis = "=0.0.24"
serde = { version = "=1.0.229", features = ["derive"] }
serde_json = "=1.0.154"
actix-web = "=4.18.1"
futures = "=0.3.34"
