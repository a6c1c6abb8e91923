[package]
name = "portfolio_trader"
version = "0.1.0"
edition = "2021"
publish = false

[dependencies]
hmac = "=0.13.0"
sha2 = "=0.11.0"
hex = "=0.4.3"
anyhow = "*"
async-openai = { version = "*", features = ["chat-completion"] }
chrono = "*"
dotenvy = "*"
flexi_logger = "*"
futures = "*"
log = "*"
reqwest = { version = "*", default-features = false, features = ["json"] }
serde = { version = "*", features = ["derive"] }
serde_json = "*"
tokio = { version = "*", features = ["macros", "rt-multi-thread", "sync", "time"] }
tokio-tungstenite = "*"
