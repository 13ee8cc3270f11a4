[package]
name = "mev_sandwich_bot"
version = "0.1.0"
edition = "2021"
publish = false

[dependencies]
alloy = { version = "=1.8.3", default-features = false, features = ["std", "consensus", "contract", "network", "providers", "pubsub", "rpc-types", "signer-local", "sol-types"] }
dotenvy = "=0.15.7"
eyre = "=0.6.14"
futures = "=0.3.34"
serde = { version = "=1.0.229", features = ["derive"] }
tokio = { version = "=1.54.1", features = ["macros", "rt-multi-thread", "sync", "time"] }
tracing = "=0.1.44"
tracing-subscriber = { version = "=0.3.23", default-features = false, features = ["std", "fmt", "env-filter"] }
