[package]
name = "language_revamp"
version = "0.1.0"
edition = "2021"
publish = false

[dependencies]
serde_json = "1"
clap = "4"
which = "*"
reqwest = { version = "*", default-features = false }
tokio = { version = "*", default-features = false, features = ["macros", "rt-multi-thread"] }
