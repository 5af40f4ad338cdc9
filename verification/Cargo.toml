[package]
name = "antarcticite"
version = "0.1.0"
edition = "2021"
publish = false

[dependencies]
anyhow = "1"
byteorder = "1"
clap = { version = "4", features = ["derive"] }
directories = "6"
notify-rust = "4"
once_cell = "1"
open = "5"
regex = "1"
serde = { version = "1", features = ["derive"] }
serde_json = "1"
tao = "*"
tokio = { version = "1", features = ["rt", "macros"] }
toml = "*"
tracing = "0.1"
tracing-appender = "0.2"
tracing-subscriber = { version = "0.3", features = ["env-filter", "fmt"] }
tray-icon = "*"
url = "2"
