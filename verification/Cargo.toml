[package]
name = "cybersec_ai_agent"
version = "0.1.0"
edition = "2021"
publish = false

[dependencies]
candid = "*"
ic-cdk = "*"
ic-cdk-macros = "*"
num-traits = "*"
serde = { version = "*", features = ["derive"] }
serde_bytes = "*"
serde_json = "*"
