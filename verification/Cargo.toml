[package]
name = "dice_game"
version = "0.1.0"
edition = "2021"
publish = false

[dependencies]
solana-program = "=1.18.26"
sha2 = "=0.10.9"
