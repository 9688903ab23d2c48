[package]
name = "timebox"
version = "0.1.0"
edition = "2021"
publish = false

[dependencies]
secret-cosmwasm-std = "0.10"
secret-toolkit = { version = "0.3", default-features = false, features = ["serialization", "utils", "snip20"] }
secret-toolkit-snip20 = "0.3"
serde = { version = "1", features = ["derive"] }
schemars = "0.7"
