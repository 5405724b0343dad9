[package]
name = "bonding_curve"
version = "0.1.0"
edition = "2021"
publish = false

[dependencies]
anchor-lang = { version = "=0.29.0", features = ["init-if-needed"] }
anchor-spl = { version = "=0.29.0", features = ["metadata"] }
raydium-amm-v3 = { version = "=0.1.0", features = ["cpi"] }
spl-token = "=4.0.0"
spl-memo = "=4.0.0"
