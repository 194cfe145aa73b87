[package]
name = "albion_network_lib"
version = "0.1.0"
edition = "2021"
publish = false

[dependencies]
serde = { version = "1", features = ["derive"] }
serde_json = "1"
chrono = "0.4"
ureq = "2"
ctrlc = "3"
pcap = "2"
