[package]
name = "pcapstreamer"
version = "0.1.0"
edition = "2021"
publish = false

[dependencies]
pcap = "*"
rdkafka = "*"
tokio = { version = "*", features = ["rt", "time", "macros"] }
clap = "*"
log = "*"
fern = "*"
chrono = "*"

[dev-dependencies]
pcap-file = "*"
