[package]
name = "storage_hub"
version = "0.1.0"
edition = "2021"
publish = false

[dependencies]
sp-trie = "=47.0.0"
sp-core = "=43.0.0"
trie-db = "=0.32.0"
memory-db = "=0.34.0"
hash-db = "=0.16.0"
serde_json = "=1.0.154"
clap = { version = "=4.6.7", features = ["derive"] }
anyhow = "1"
log = "0.4"
thiserror = "1"
