[package]
name = "confidential_markets"
version = "0.1.0"
edition = "2021"
publish = false

[dependencies]
anchor-lang = { version = "=1.0.2", features = ["init-if-needed"] }
anchor-spl = { version = "=1.0.2", default-features = false, features = ["associated_token", "token", "token_2022"] }
arcium-anchor = { version = "=0.16.0", default-features = false }
arcium-client = { version = "=0.16.0", default-features = false }
arcium-macros = { version = "=0.16.0" }
