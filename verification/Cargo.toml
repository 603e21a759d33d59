[package]
name = "verify_example"
version = "0.1.0"
edition = "2021"
publish = false

[dependencies]
base64 = "0.13"
failure = "0.1"
hex = "0.4"
rmp-serde = "1"
sequoia-openpgp = { version = "*", default-features = false, features = ["crypto-rust", "allow-experimental-crypto", "allow-variable-time-crypto"] }
serde = { version = "1", features = ["derive"] }
serde_bytes = "0.11"
sodiumoxide = "0.2"
