[package]
name = "coap_dtls"
version = "0.1.0"
edition = "2021"
publish = false

[dependencies]
async-trait = "0.1"
tokio = { version = "1", features = ["net", "rt", "rt-multi-thread", "sync", "time", "macros"] }
webrtc-dtls = "0.8"
webrtc-util = "0.8"
