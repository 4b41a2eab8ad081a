[package]
name = "rplayer"
version = "0.1.0"
edition = "2021"
publish = false

[dependencies]
urlencoding = "*"
sanitize-filename = "*"
serde_json = "*"
reqwest = { version = "*", features = ["json"] }
tokio = { version = "*", features = ["fs"] }
lofty = "*"
rodio = "*"
