[package]
name = "golemsp"
version = "0.1.0"
edition = "2021"
publish = false

[dependencies]
actix-rt = "2"
anyhow = "1"
bigdecimal = { version = "*", features = ["serde"] }
chrono = { version = "0.4", features = ["serde"] }
directories = "*"
dotenv = "0.15"
env_logger = "*"
log = "0.4"
regex = "1"
serde = { version = "1", features = ["derive"] }
serde_json = "1"
structopt = "0.3"
strum = "*"
strum_macros = "*"
tokio = { version = "1", features = ["process", "rt", "macros", "io-util"] }
