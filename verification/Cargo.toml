[package]
name = "shl_lsp"
version = "0.1.0"
edition = "2021"
publish = false

[dependencies]
simplicityhl = "=0.4.1"
ropey = "=1.6.1"
miniscript = "=12.3.7"
tokio = { version = "=1.53.2", features = ["rt-multi-thread", "io-std", "io-util", "macros", "sync"] }
tower-lsp-server = "=0.23.0"
serde_json = "=1.0.151"
env_logger = "=0.11.11"

[dev-dependencies]
base64 = "=0.21.7"
