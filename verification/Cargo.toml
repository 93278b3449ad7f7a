[package]
name = "web3_wallet_security"
version = "0.1.0"
edition = "2021"
publish = false

[dependencies]
ed25519-dalek = "*"
ethers = { version = "*", default-features = false }
rand = "0.8"
secp256k1 = "*"
sha2 = "*"

[dev-dependencies]
hex = "*"
rlp = "*"
