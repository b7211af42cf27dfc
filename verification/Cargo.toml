[package]
name = "looper"
version = "0.1.0"
edition = "2021"
publish = false

[dependencies]
serde_json = "=1.0.151"
tokio = { version = "*", features = ["full"] }
async-openai = { version = "=0.42.1", features = ["chat-completion"] }
async-trait = "*"
async-recursion = "*"
futures = "*"
anyhow = "*"
console = "*"
indicatif = "*"
dotenv = "*"
