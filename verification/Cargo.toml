[package]
name = "mpdbtool"
version = "0.1.0"
edition = "2021"
publish = false

[dependencies]
chrono = { version = "0.4", default-features = false, features = ["std", "serde"] }
clap = { version = "4", features = ["derive"] }
config = { version = "*", default-features = false, features = ["toml"] }
flexi_logger = { version = "*" }
indicatif = { version = "*" }
log = { version = "0.4" }
reqwest = { version = "*", default-features = false, features = ["json"] }
serde = { version = "1", features = ["derive"] }
serde_json = { version = "1" }
serde-xml-rust = { version = "*" }
serde_yml = { version = "*" }
tokio = { version = "1", features = ["macros", "rt-multi-thread"] }
