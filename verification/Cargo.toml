[package]
name = "mudcrab"
version = "0.1.0"
edition = "2021"
publish = false

[dependencies]
clap = "2"
config = { version = "0.11", default-features = false, features = ["toml"] }
reqwest = "0.11"
tokio = { version = "1", features = ["macros", "rt-multi-thread", "time"] }
xdg = "2"
zip = { version = "0.6", default-features = false, features = ["deflate"] }
