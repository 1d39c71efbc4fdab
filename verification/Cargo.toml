[package]
name = "libtrader"
version = "0.1.0"
edition = "2021"
publish = false

[dependencies]
bincode = "1.3"
ring = "0.16"
data-encoding = "2"
serde = { version = "1", features = ["derive"] }
mio = { version = "0.7", features = ["os-poll", "net"] }
rustls = "0.19"
webpki = "0.21"
tokio = { version = "1", features = ["rt", "net", "time"] }
tokio-postgres = "0.7"
log = "0.4"
simplelog = "0.9"
chrono = "0.4"
