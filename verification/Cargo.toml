[package]
name = "eureka"
version = "0.1.0"
edition = "2021"
publish = false

[dependencies]
cosmwasm-schema = "=2.3.6"
cosmwasm-std = "=2.3.6"
cw-storey = "=0.4.0"
cw20 = "=2.0.0"
cw20-base = { version = "=2.0.0", features = ["library"] }
serde = { version = "=1.0.229", features = ["derive"] }
serde_json = "=1.0.154"
sylvia = "=1.3.6"
