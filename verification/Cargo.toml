[package]
name = "virtual_tcp"
version = "0.1.0"
edition = "2021"
publish = false

[dependencies]
smoltcp = "0.8"
managed = "0.8"
rand = "0.8"
chrono = "0.4"
tokio = { version = "1", features = ["macros", "rt", "signal", "sync", "time"] }
tokio-stream = "0.1"
futures = "0.3"
futures-util = "0.3"
anyhow = "1"
log = "0.4"
env_logger = "*"
dotenv = "0.15"
clap = { version = "4", features = ["derive", "env"] }
serde = { version = "1", features = ["derive"] }
actix-rt = "2"
actix-web = { version = "4", default-features = false, features = ["macros"] }
actix-web-lab = "*"
