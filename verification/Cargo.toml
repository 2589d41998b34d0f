[package]
name = "omniclip_core"
version = "0.1.0"
edition = "2021"
publish = false

[dependencies]
aes-gcm = "0.10"
anyhow = "1"
arboard = { version = "3", default-features = false }
base64 = "0.22"
clap = { version = "4", features = ["derive"] }
ctrlc = "3"
dirs = "5"
ed25519-dalek = { version = "2", features = ["rand_core"] }
get_if_addrs = "0.5"
hostname = "0.4"
mdns-sd = "0.11"
qrcode = { version = "0.14", default-features = false, features = ["svg"] }
rand = "0.8"
serde = { version = "1", features = ["derive"] }
serde_json = "1"
sha2 = "0.10"
thiserror = "1"
tokio = { version = "1", features = ["full"] }
tracing = "0.1"
tracing-subscriber = { version = "0.3", features = ["env-filter"] }
urlencoding = "2"
uuid = { version = "1", features = ["v4", "serde"] }
x25519-dalek = { version = "2", features = ["static_secrets"] }
