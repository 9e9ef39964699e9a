[package]
name = "volatility_trader"
version = "0.1.0"
edition = "2021"
publish = false

[dependencies]
rand = "0.8"
serde = { version = "1", features = ["derive"] }
serde_json = "1"
toml = "0.8"
clap = { version = "4", features = ["derive"] }
log = "0.4"
log4rs = "1"
tokio = { version = "1", features = ["rt-multi-thread", "macros", "time", "sync"] }
reqwest = { version = "0.12", default-features = false, features = ["blocking"] }
rust_decimal = "1"
rust_decimal_macros = "1"
strum_macros = "0.26"
