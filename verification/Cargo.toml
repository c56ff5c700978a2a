[package]
name = "tic_tac_toe"
version = "0.1.0"
edition = "2021"
publish = false

[dependencies]
async-graphql = { version = "*", default-features = false }
linera-base = { version = "*", default-features = false }
log = "0.4"
serde = { version = "1", features = ["derive"] }
