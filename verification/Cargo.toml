[package]
name = "event_manager"
version = "0.1.0"
edition = "2021"
publish = false

[dependencies]
uuid = { version = "*", features = ["v4"] }
chrono = "*"
serde = { version = "*", features = ["derive"] }
serde_derive = "*"
serde_json = "*"
eventstore = "*"
futures = "*"
tokio = { version = "*", features = ["macros", "rt-multi-thread"] }
