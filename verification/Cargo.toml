[package]
name = "bonus_prize"
version = "0.1.0"
edition = "2021"
publish = false

[dependencies]
solana-program = "1.18"
spl-token = { version = "4", features = ["no-entrypoint"] }
spl-associated-token-account = { version = "3", features = ["no-entrypoint"] }
borsh = { version = "1", features = ["derive"] }
bytemuck = { version = "1", features = ["derive"] }
thiserror = "1"
num-traits = "0.2"
