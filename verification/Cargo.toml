[package]
name = "libqinit"
version = "0.1.0"
edition = "2021"
publish = false

[dependencies]
anyhow = "=1.0.104"
base64 = "=0.22.1"
chrono = "=0.4.45"
clap = { version = "=4.6.7", features = ["derive"] }
crossterm = "=0.29.0"
env_logger = "=0.11.11"
exec = "=0.3.1"
local-ip-address = "=0.6.13"
log = "=0.4.34"
network-interface = "=2.0.5"
nix = { version = "=0.31.3", features = ["fs", "hostname", "process", "signal"] }
openssl = "=0.10.81"
postcard = { version = "=1.1.3", features = ["use-std"] }
qrcode-generator = "=4.1.9"
rand = "=0.9.5"
regex = "=1.13.1"
rmesg = { version = "=1.0.24", default-features = false, features = ["sync"] }
ron = "=0.12.2"
serde = { version = "=1.0.229", features = ["derive"] }
serde_json = "=1.0.154"
sha256 = { version = "=1.6.0", default-features = false }
signal-hook = "=0.3.18"
sys-mount = { version = "=3.1.1", default-features = false }
