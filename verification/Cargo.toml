[package]
name = "docker_monitor"
version = "0.1.0"
edition = "2021"
publish = false

[dependencies]
bollard = "0.18"
chrono = "0.4"
crossterm = "0.28"
futures = "0.3"
ratatui = "0.28"
tokio = { version = "1", features = ["full"] }
