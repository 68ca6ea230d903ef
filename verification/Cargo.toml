[package]
name = "kwite"
version = "0.1.0"
edition = "2021"
publish = false

[dependencies]
chrono = "*"
crossbeam-channel = "*"
dirs = "*"
nnnoiseless = "*"
num_cpus = "*"
once_cell = "*"
rand = "*"
rustfft = "*"
serde = { version = "*", features = ["derive"] }
serde_json = "*"
sha2 = "*"
toml = "*"
tracing = "*"
tracing-subscriber = { version = "*", features = ["env-filter"] }
webrtc-vad = "*"
