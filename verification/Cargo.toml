[package]
name = "zigbee_leak_bot"
version = "0.1.0"
edition = "2021"
publish = false

[dependencies]
serde_json = "=1.0.154"
rumqttc = { version = "=0.25.1", default-features = false }
teloxide = { version = "=0.17.0", default-features = false }
takecell = "=0.1.1"
tokio = { version = "=1.54.1", features = ["macros", "rt-multi-thread", "time"] }
dotenvy = "=0.15.7"
env_logger = "=0.11.11"
log = "=0.4.34"
