[package]
name = "packetstats"
version = "0.1.0"
edition = "2021"
publish = false

[dependencies]
etherparse = "=0.21.0"
domain = "=0.12.3"
ntp-parser = "=0.6.0"
serde_json = "=1.0.151"
pcap-parser = { version = "=0.17.0", features = ["data"] }
