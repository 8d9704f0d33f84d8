[package]
name = "paine"
version = "0.1.0"
edition = "2021"
publish = false

[dependencies]
anyhow = "1"
chrono = "0.4"
reqwest = { version = "0.11", default-features = false, features = ["blocking"] }
structopt = "0.3"
termion = "1.5"
threadpool = "1"
tui = { version = "0.19", default-features = false, features = ["termion"] }
