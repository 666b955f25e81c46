[package]
name = "strata_asm"
version = "0.1.0"
edition = "2021"
publish = false

[dependencies]
bitcoin = "0.32"
secp256k1 = { version = "0.29", features = ["global-context"] }
borsh = { version = "1", features = ["derive"] }
serde = { version = "1", features = ["derive"] }
thiserror = "2"
