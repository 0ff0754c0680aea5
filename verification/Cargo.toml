[package]
name = "slime_server"
version = "0.1.0"
edition = "2021"
publish = false

[dependencies]
rc4 = "=0.1.0"
serde = { version = "=1.0.229", features = ["derive"] }
toml = "=0.8.23"
tokio = { version = "=1.54.1", features = ["sync", "rt", "rt-multi-thread", "macros", "net", "io-util", "time"] }
tracing = "=0.1.44"
thiserror = "=1.0.69"
chrono = "=0.4.45"
bcrypt = "=0.19.3"
rand = "=0.8.8"
uuid = { version = "=1.29.0", features = ["v4"] }
anyhow = "1"
clap = { version = "4", features = ["derive", "env"] }
colored = "*"
rustyline = "*"
serde_json = "1"
reqwest = { version = "*", default-features = false, features = ["json"] }
