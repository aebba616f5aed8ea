[package]
name = "ssh_m"
version = "0.1.0"
edition = "2021"
publish = false

[dependencies]
alloy = { version = "1", default-features = false, features = ["std", "signer-local"] }
bip39 = "2"
bitcoin = "0.32"
dirs = "*"
glob = "0.3"
secp256k1 = "0.29"
serde = { version = "1", features = ["derive"] }
serde_json = "1"
solana-keypair = "2"
solana-pubkey = "2"
solana-signer = "2"
ssh2-config = "*"
which = "*"
zeroize = "1"
