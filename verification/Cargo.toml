[package]
name = "ntfy_log"
version = "0.1.0"
edition = "2021"
publish = false

[dependencies]
serde_json = "*"
serde = { version = "*", features = ["derive"] }
reqwest = { version = "*", default-features = false, features = ["json"] }
tokio = { version = "*", features = ["full"] }
clap = { version = "*", features = ["derive"] }
clap-verbosity-flag = "*"
atty = "*"
url = "*"
owo-colors = "*"
