[package]
name = "mcp_magnet"
version = "0.1.0"
edition = "2021"
publish = false

[dependencies]
sequoia-openpgp = { version = "1", default-features = false, features = ["crypto-rust", "allow-experimental-crypto", "allow-variable-time-crypto"] }
ssh-key = { version = "0.6", features = ["ed25519"] }

[dev-dependencies]
rand_core = { version = "0.6", features = ["std"] }
