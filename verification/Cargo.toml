[package]
name = "belugasnooze"
version = "0.1.0"
edition = "2021"
publish = false

[dependencies]
time = "0.3"
time-tz = "1"
tokio = { version = "1", features = ["full"] }
sqlx = { version = "0.7", default-features = false, features = ["sqlite", "runtime-tokio"] }
tokio-tungstenite = "0.21"
futures-util = { version = "0.3", features = ["sink"] }
simple-signal = "1.1"
anyhow = "1"
thiserror = "1"
serde = { version = "1", features = ["derive"] }
serde_json = "1"
tracing = "0.1"
tracing-subscriber = "0.3"
blinkt = "0.7"
