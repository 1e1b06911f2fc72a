[package]
name = "video_toolbox"
version = "0.1.0"
edition = "2021"
publish = false

[dependencies]
base64 = "0.22"
dirs = "*"
image = { version = "0.25", default-features = false, features = ["jpeg", "png"] }
log = "0.4"
printpdf = { version = "0.7", default-features = false }
regex = "1"
serde = { version = "1", features = ["derive"] }
serde_json = "1"
tokio = { version = "1", features = ["process", "io-util", "sync", "rt-multi-thread", "macros"] }
url = "2"
