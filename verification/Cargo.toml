[package]
name = "sea_migration"
version = "0.1.0"
edition = "2021"
publish = false

[dependencies]
sea-query = "0.28"
async-std = "1"
async-trait = "0.1"
tracing = "0.1"
