[package]
name = "community_hub"
version = "0.1.0"
edition = "2021"
publish = false
