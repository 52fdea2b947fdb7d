[package]
name = "paladin_sol_stake_view_program"
version = "0.1.0"
edition = "2021"
publish = false

[dependencies]
solana-program = "2.1"
bincode = "1.3"
base64 = "0.22"
