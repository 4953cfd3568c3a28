[package]
name = "expend"
version = "0.1.0"
edition = "2021"
publish = false

[dependencies]
chrono = "=0.4.45"
dirs = "=7.0.0"
failure = "=0.1.8"
failure-tools = "=4.0.5"
keyring = { version = "=3.6.3", features = ["apple-native", "linux-native", "windows-native"] }
reqwest = { version = "=0.12.28", features = ["blocking", "json"] }
serde = { version = "=1.0.229", features = ["derive"] }
serde_json = "=1.0.154"
serde_yaml = "=0.9.34"
structopt = "=0.3.26"
termion = "=4.0.6"
username = "=0.2.0"
