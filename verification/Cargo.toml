[package]
name = "vpci_relay"
version = "0.1.0"
edition = "2021"
publish = false

[dependencies]
anyhow = "1"
async-trait = "0.1"
futures = "0.3"
sha2 = "0.10"
slab = "0.4"
thiserror = "2"
tracing = "0.1"
