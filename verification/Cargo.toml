[package]
name = "webapp_manager"
version = "0.1.0"
edition = "2021"
publish = false

[dependencies]
anyhow = "1"
dirs = "*"
gtk4 = { version = "*", features = ["v4_10"] }
libadwaita = "*"
reqwest = { version = "*", features = ["blocking"] }
scraper = "*"
url = "2"
