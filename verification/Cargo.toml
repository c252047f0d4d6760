[package]
name = "signalui"
version = "0.1.0"
edition = "2021"
publish = false

[dependencies]
hex = "0.4"
uuid = "1"
rand = "0.8"
qrcode = "0.14"
mime_guess = "2"
serde = { version = "1", features = ["derive"] }
serde_json = "1"
thiserror = "1"
clap = { version = "4", features = ["derive"] }
tokio = { version = "1", features = ["rt", "rt-multi-thread", "sync", "time", "macros"] }
futures = "0.3"
url = "2"
zeroize = "1"
prost = "0.13"
image = { version = "0.25", default-features = false, features = ["png"] }
security-framework = "*"
tracing = "0.1"
tracing-subscriber = { version = "0.3", features = ["env-filter"] }
