[package]
name = "tic_tac_toe"
version = "0.1.0"
edition = "2021"
publish = false

[dependencies]
rand = "0.6"
rand_isaac = "0.1"
serde = { version = "1", features = ["derive"] }
serde_json = "1"
