[package]
name = "magi_core"
version = "0.1.0"
edition = "2021"
publish = false

[dependencies]
regex = "1"
serde = { version = "1", features = ["derive"] }
serde_json = "1"
urlencoding = "2"
chrono = "0.4"
anyhow = "1"
async-trait = "0.1"
tokio = { version = "1", features = ["full"] }
futures = "0.3"
thiserror = "1"
tracing = "0.1"
tracing-subscriber = { version = "0.3", features = ["env-filter"] }
reqwest = { version = "0.12", default-features = false, features = ["json", "stream"] }
axum = "0.7"
tower-http = { version = "0.5", features = ["cors"] }
tokio-stream = "0.1"
sled = "0.34"
bson = "2"
walkdir = "2"
dotenvy = "0.15"
config = { version = "0.14", default-features = false, features = ["ini"] }
clap = { version = "4", features = ["derive"] }
ndarray = "0.16"
printpdf = { version = "0.7", default-features = false }
candle-core = "0.8"
candle-nn = "0.8"
candle-transformers = "0.8"
tokenizers = { version = "0.20", default-features = false, features = ["onig"] }
hf-hub = "0.3"
