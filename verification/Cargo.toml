[package]
name = "ble_time_sync"
version = "0.1.0"
edition = "2021"
publish = false

[dependencies]
btleplug = "0.11"
chrono = { version = "0.4", default-features = false, features = ["clock", "std"] }
pretty_env_logger = "0.5"
tokio = { version = "1", features = ["macros", "rt-multi-thread", "time"] }
uuid = "1"
