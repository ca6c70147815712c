[package]
name = "drop_downloader"
version = "0.1.0"
edition = "2021"
publish = false

[dependencies]
md5 = "0.7"
hex = "0.4"
urlencoding = "2"
boxcar = "*"
rayon = "1"
reqwest = { version = "0.12", default-features = false, features = ["blocking", "json"] }
serde = { version = "1", features = ["derive"] }
bincode = "1"
log = "0.4"
url = "2"
rustix = { version = "*", features = ["fs"] }
openssl = "0.10"
