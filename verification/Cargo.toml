[package]
name = "tracing_modality"
version = "0.1.0"
edition = "2021"
publish = false

[dependencies]
uuid = { version = "*", features = ["v4", "v5"] }
hex = "*"
modality-ingest-client = "*"
tokio = { version = "*", features = ["rt", "sync", "macros", "time"] }
tracing = "*"
tracing-core = "*"
tracing-subscriber = { version = "*", features = ["registry"] }
once_cell = "*"
dirs = "*"
url = "*"
