[package]
name = "gelly"
version = "0.1.0"
edition = "2021"
publish = false

[dependencies]
async-io = "2"
diacritics = "*"
futures = "0.3"
gtk4 = "*"
log = "0.4"
md5 = "*"
num_enum = "0.7"
oo7 = "*"
rand = "0.10"
reqwest = { version = "0.13", default-features = false, features = ["json", "query", "rustls"] }
serde = { version = "1", features = ["derive"] }
serde_json = "1"
tokio = { version = "1", features = ["time"] }
uuid = { version = "1", features = ["v4"] }
