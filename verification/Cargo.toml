[package]
name = "feed_aggregator"
version = "0.1.0"
edition = "2021"
publish = false

[dependencies]
atom_syndication = "=0.6.0"
chrono = { version = "=0.4.45", features = ["serde"] }
futures = "=0.1.31"
hyper = "=0.12.36"
hyper-tls = "=0.3.2"
log = "=0.4.34"
quick-xml = "=0.12.4"
rss = "=1.5.0"
serde = { version = "=1.0.229", features = ["derive"] }
tokio = "=0.1.22"
tokio-current-thread = "=0.1.7"
tokio-timer = "=0.2.13"
