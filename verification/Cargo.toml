[package]
name = "arma3_wiki"
version = "0.1.0"
edition = "2021"
publish = false

[dependencies]
serde = { version = "1", features = ["derive"] }
serde_json = "1"
serde_yaml = "0.9"
fs-err = "*"
tokio = { version = "1", features = ["macros", "rt-multi-thread", "fs", "time", "io-util"] }
regex = "1"
indexmap = { version = "2", features = ["serde"] }
urlencoding = "2"
reqwest = { version = "*", default-features = false, features = ["rustls-tls", "cookies"] }
similar = { version = "2", features = ["inline"] }
console = "*"
dialoguer = "*"
ts-rs = "*"
octocrab = "*"
