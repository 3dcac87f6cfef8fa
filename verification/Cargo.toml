[package]
name = "signet_cli"
version = "0.1.0"
edition = "2021"
publish = false

[dependencies]
base64 = "0.22"
clap = { version = "4", features = ["derive"] }
hex = "0.4"
kem = "=0.3.0-pre.0"
ml-dsa = { version = "0.1", features = ["getrandom"] }
ml-kem = { version = "0.2", features = ["deterministic"] }
rand_core = { version = "0.6", features = ["getrandom"] }
rustls = "0.23"
serde = { version = "1", features = ["derive"] }
serde_json = "1"
time = { version = "0.3", features = ["parsing", "formatting"] }
toml = "0.8"
ureq = "2.12"
uuid = { version = "1", features = ["v4"] }
webpki-roots = "0.26"
zeroize = "1"
