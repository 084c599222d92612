[package]
name = "conduit_admin_graphql"
version = "0.1.0"
edition = "2021"
publish = false

[dependencies]
async-graphql = "7"
async-trait = "0.1"
chrono = "0.4"
regex = "1"
rust_decimal = "1"
serde_json = "1"
thiserror = "2"
