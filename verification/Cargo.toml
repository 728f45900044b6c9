[package]
name = "bitwarden_pin"
version = "0.1.0"
edition = "2021"
publish = false

[dependencies]
argon2 = "=0.5.3"
base64 = "=0.22.1"
clap = { version = "=4.6.7", features = ["derive"] }
colored = "=3.1.1"
hkdf = "=0.12.4"
hmac = "=0.12.1"
indicatif = { version = "=0.18.6", features = ["rayon"] }
pbkdf2 = "=0.12.2"
rayon = "=1.12.0"
sha2 = "=0.10.9"
