[package]
name = "tardis"
version = "0.1.0"
edition = "2021"
publish = false

[dependencies]
tokenizers = { version = "=0.21.4", default-features = false, features = ["fancy-regex"] }
serde = { version = "=1.0.229", features = ["derive"] }
serde_json = "=1.0.154"
thiserror = "=1.0.69"
tokio = { version = "=1.54.1", features = ["rt", "rt-multi-thread", "macros", "sync", "time", "fs"] }
tracing = "=0.1.44"
tracing-subscriber = { version = "=0.3.23", features = ["env-filter", "fmt", "json"] }
chrono = "=0.4.45"
parking_lot = "=0.12.5"
spin = "=0.9.9"
x86_64 = { version = "=0.15.5", default-features = false, features = ["instructions"] }
async-trait = "=0.1.92"
candle-core = "=0.8.4"
candle-nn = "=0.8.4"
candle-transformers = "=0.8.4"
hf-hub = "=0.3.2"
