[package]
name = "eth_parser"
version = "0.1.0"
edition = "2021"
publish = false

[dependencies]
hex = "*"
ethereum_abi = "*"
serde_json = "*"
serde = "*"
web3 = { version = "*", default-features = false, features = ["http"] }
reqwest = { version = "*", default-features = false, features = ["json", "blocking"] }
tokio = { version = "*", features = ["rt-multi-thread", "macros", "time"] }
futures = "*"
clap = { version = "*", features = ["derive"] }
dotenv = "*"
env_logger = "*"
log = "*"
primitive-types = "*"
