[package]
name = "scriptboard"
version = "0.1.0"
edition = "2021"
publish = false

[dependencies]
shlex = "=2.0.1"
uuid = { version = "=1.29.0", features = ["v4"] }
getrandom = "=0.4.3"
serde = { version = "=1.0.229", features = ["derive"] }
serde_json = "=1.0.154"
dirs = "=7.0.0"
log = "=0.4.35"
fern = "=0.7.1"
humantime = "=2.4.0"
dotenv = "=0.15.0"
once_cell = "=1.21.4"
