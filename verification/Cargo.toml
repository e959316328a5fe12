[package]
name = "feed_store"
version = "0.1.0"
edition = "2021"
publish = false

[dependencies]
anyhow = "1"
async-std = "1"
async-trait = "0.1"
ed25519-dalek = "1"
flat-tree = "5"
parking_lot = "0.11"
random-access-storage = "4"
sparse-bitfield = "0.11"
tree-index = "0.6"
