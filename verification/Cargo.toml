[package]
name = "manga_sync"
version = "0.1.0"
edition = "2021"
publish = false

[dependencies]
scraper = "*"
regex = "*"
sha2 = "*"
rand = "*"
reqwest = { version = "*", default-features = false, features = ["blocking", "cookies", "rustls-tls"] }
