[package]
name = "tuktuk_counter"
version = "0.1.0"
edition = "2021"
publish = false

[dependencies]
anchor-lang = "=0.31.2"
solana-gpt-oracle = { version = "*", features = ["cpi"] }
tuktuk-program = "=0.4.2"
