[package]
name = "brush_embedded"
version = "0.1.0"
edition = "2021"
publish = false

[dependencies]
clap = "4.5"
crossterm = "0.29"
futures = "0.3"
human-panic = "2.0"
once_cell = "1"
serde_json = "1"
thiserror = "2"
tokio = { version = "1", features = ["rt", "rt-multi-thread", "sync"] }
tracing = "0.1"
