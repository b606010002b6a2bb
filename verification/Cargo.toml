[package]
name = "mckismetlab_launcher_core"
version = "0.1.0"
edition = "2021"
publish = false

[dependencies]
futures = "*"
home = "*"
regex = "*"
reqwest = { version = "*", default-features = false, features = ["json", "stream"] }
serde = { version = "*", features = ["derive"] }
serde_json = "*"
sha1 = "*"
tokio = { version = "*", features = ["rt-multi-thread", "macros"] }
uuid = { version = "*", features = ["v4"] }
zip = { version = "*", default-features = false }
