[package]
name = "vault_cli"
version = "1.0.0"
edition = "2021"
publish = false

[dependencies]
aes-gcm = "0.10"
bip39 = { version = "2", features = ["rand"] }
clap = { version = "4", default-features = false, features = ["derive", "std", "help", "usage", "error-context"] }
ethers = { version = "2", default-features = false }
hex = "0.4"
serde = { version = "1", features = ["derive"] }
serde_json = "1"
tokio = { version = "1", features = ["macros", "rt-multi-thread"] }
