[package]
name = "rock_runtime"
version = "0.1.0"
edition = "2021"
publish = false

[dependencies]
ahash = "*"
alloy = { version = "*", default-features = false, features = ["std"] }
chrono = "*"
color-eyre = "*"
cron = "*"
flume = "*"
futures-util = "*"
hecs = "*"
mlua = { version = "*", features = ["lua54", "vendored", "async", "serialize"] }
nanoid = "*"
serde = { version = "*", features = ["derive"] }
serde_json = "*"
slotmap = "*"
smallvec = "*"
strum = { version = "*", features = ["derive"] }
thiserror = "*"
tokio = { version = "*", features = ["rt", "time"] }
