[package]
name = "card_packs"
version = "0.1.0"
edition = "2021"
publish = false

[dependencies]
lipsum = "=0.9.1"
rand = "=0.8.8"
