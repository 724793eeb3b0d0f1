[package]
name = "srsly"
version = "0.1.0"
edition = "2021"
publish = false

[dependencies]
clap = { version = "4", features = ["derive"] }
color-eyre = "0.6"
crossterm = { version = "*", features = ["event-stream"] }
dialoguer = "*"
futures = "0.3"
owo-colors = "4"
ratatui = "*"
regex = "1"
smallvec = "1"
tokio = { version = "1", features = ["full"] }
tokio-serial = { version = "5.4", default-features = false }
tokio-stream = "0.1"
tokio-util = "0.7"
tracing = "0.1"
vt100 = "0.16"
