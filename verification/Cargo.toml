[package]
name = "calcure_reminder"
version = "0.1.0"
edition = "2021"
publish = false

[dependencies]
csv = "1"
dirs = "*"
dotenv = "0.15"
resend-rs = "*"
tokio = { version = "1", features = ["macros", "rt-multi-thread"] }
