[package]
name = "porkbun_rs"
version = "0.1.0"
edition = "2021"
publish = false

[dependencies]
serde_json = "1"
url = "2"
serde = { version = "1", features = ["derive"] }
reqwest = { version = "0.12", default-features = false, features = ["json"] }
tokio = { version = "1", features = ["macros", "rt-multi-thread"] }
clap = { version = "4", features = ["derive", "env"] }
clap_complete = "4"
dotenvy = "0.15"
thiserror = "2"
tracing = "0.1"
tracing-subscriber = "0.3"
