[package]
name = "contract_interact"
version = "0.1.0"
edition = "2021"
publish = false

[dependencies]
bech32 = "0.9"
env_logger = "=0.11.6"
multiversx-sc-snippets = "0.52"
serde = { version = "=1.0.210", features = ["derive"] }
tokio = { version = "=1.54.1", features = ["macros", "rt-multi-thread"] }
toml = "=0.8.23"
