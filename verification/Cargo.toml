[package]
name = "goup"
version = "0.1.0"
edition = "2021"
publish = false

[dependencies]
anyhow = "*"
clap = { version = "*", features = ["derive"] }
colored = "*"
dialoguer = "*"
flate2 = "*"
indicatif = "*"
junction = "*"
log = "*"
regex = "*"
reqwest = { version = "*", default-features = false, features = ["blocking", "json", "rustls-tls"] }
semver = "*"
serde = { version = "*", features = ["derive"] }
sha2 = "*"
tar = "*"
which = "*"
zip = { version = "*", default-features = false, features = ["deflate"] }
