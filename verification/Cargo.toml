[package]
name = "oks"
version = "0.1.0"
edition = "2021"
publish = false

[dependencies]
anyhow = "1"
clap = { version = "4", features = ["derive", "env"] }
env_logger = "0.10"
fs_extra = "1"
glob = "0.3"
hex = "0.4"
log = "0.4"
p256 = "0.13"
rand_core = { version = "0.6", features = ["getrandom"] }
rpassword = "7"
serde = { version = "1", features = ["derive"] }
serde_json = "1"
tempfile = "3"
thiserror = "1"
vsss-rs = "4"
yubihsm = "0.42"
zeroize = "1"
