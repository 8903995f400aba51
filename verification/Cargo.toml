[package]
name = "sousa_client"
version = "0.1.0"
edition = "2021"
publish = false

[dependencies]
clap = { version = "4", features = ["derive"] }
serde_json = "1"
table_print = "*"
termsize = "*"
tungstenite = "0.20"
url = "2"
