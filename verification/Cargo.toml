[package]
name = "card_ledger"
version = "0.1.0"
edition = "2021"
publish = false

[dependencies]
rust_decimal = "1"
base64 = "0.22"
hex = "0.4"
hmac = "0.12"
sha2 = "0.10"
rand = "0.9"
rand_chacha = "0.9"
chrono = "0.4"
serde = { version = "1", features = ["derive"] }
serde_json = "1"
axum = "0.7"
tokio = { version = "1", features = ["macros", "rt-multi-thread", "net"] }
tower-http = { version = "0.5", features = ["cors"] }
yahoo_finance_api = { version = "2", features = ["blocking"] }
