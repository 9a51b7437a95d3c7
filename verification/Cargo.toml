[package]
name = "moto_pos"
version = "0.1.0"
edition = "2021"
publish = false

[dependencies]
base64 = "0.22"
bcrypt = "*"
chrono = "0.4"
image = { version = "0.25", default-features = false, features = ["png"] }
jsonwebtoken = "9"
local-ip-address = "*"
log = "0.4"
qrcode = "0.14"
rand = "0.8"
reqwest = { version = "0.12", default-features = false, features = ["json", "rustls-tls"] }
rusqlite = { version = "*", features = ["bundled"] }
serde = { version = "1", features = ["derive"] }
serde_json = "1"
tokio = { version = "1", features = ["rt-multi-thread", "macros", "time"] }
uuid = { version = "1", features = ["v4", "v7"] }
anyhow = "1"
dotenvy = "*"
env_logger = "*"
open = "5"
