[package]
name = "bellande_motion_probability"
version = "0.1.0"
edition = "2021"
publish = false

[dependencies]
serde_json = "1"
reqwest = { version = "0.11", default-features = false, features = ["json", "blocking"] }
structopt = "0.3"
