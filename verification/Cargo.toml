[package]
name = "cln_ntfy"
version = "0.1.0"
edition = "2021"
publish = false

[dependencies]
cln-plugin = "0.1"
log = "0.4"
ntfy = "0.3"
serde_json = "1"
tokio = { version = "1", features = ["macros", "rt-multi-thread", "io-std", "sync"] }
