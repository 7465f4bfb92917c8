[package]
name = "scholar_feed"
version = "0.1.0"
edition = "2021"
publish = false

[dependencies]
chrono = { version = "0.4", default-features = false, features = ["std", "clock"] }
rss = "2"
url = "2"
google-scholar-query = "*"
hyper = { version = "1", features = ["http1", "server"] }
hyper-util = { version = "0.1", features = ["tokio"] }
http-body-util = "0.1"
tokio = { version = "1", features = ["macros", "rt-multi-thread", "net", "time", "sync"] }
parking_lot = "0.12"
