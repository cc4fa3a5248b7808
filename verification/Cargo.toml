[package]
name = "kms_service"
version = "0.1.0"
edition = "2021"
publish = false

[dependencies]
aes-gcm = "0.10"
argon2 = "0.5"
base64 = "0.22"
ed25519-dalek = { version = "2", features = ["pkcs8", "pem", "rand_core"] }
x25519-dalek = { version = "2", features = ["static_secrets"] }
pem = "3"
pkcs8 = "0.10"
rand = "*"
sha2 = "0.10"
hex = "0.4"
ssss = "*"
uuid = { version = "1", features = ["v4", "v7"] }
chrono = "0.4"
zeroize = { version = "1", features = ["derive"] }
serde = { version = "1", features = ["derive"] }
serde_json = "1"
serde_bytes = "0.11"
axum = "0.8"
tokio = { version = "1", features = ["full"] }
clap = { version = "4", features = ["derive"] }
config = { version = "*", default-features = false, features = ["toml"] }
dotenvy = "0.15"
tracing = "0.1"
anyhow = "1"
thiserror = "2"
async-trait = "0.1"
bson = { version = "2", features = ["chrono-0_4", "uuid-1"] }
mongodb = "3"
fred = "*"

[dev-dependencies]
tempfile = "3"
