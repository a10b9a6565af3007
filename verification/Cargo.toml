[package]
name = "weather_cli"
version = "0.1.0"
edition = "2021"
publish = false

[dependencies]
chrono = "0.4"
clap = { version = "4", features = ["derive"] }
dotenvy = "0.15"
json_to_table = "*"
reqwest = { version = "0.12", default-features = false, features = ["json"] }
serde = { version = "1", features = ["derive"] }
serde_json = "1"
tabled = "*"
thiserror = "*"
tokio = { version = "1", features = ["macros", "rt-multi-thread"] }
