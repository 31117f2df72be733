[package]
name = "chatgpt"
version = "0.1.0"
edition = "2021"
publish = false

[dependencies]
serde_json = "1"
serde = { version = "1", features = ["derive"] }
reqwest = { version = "0.11", default-features = false, features = ["json", "stream", "rustls-tls"] }
tokio = { version = "1", features = ["fs", "io-util", "macros", "rt-multi-thread"] }
url = "2"
thiserror = "1"
postcard = { version = "1", default-features = false, features = ["alloc"] }
eventsource-stream = "0.2"
futures-util = "0.3"
futures = "0.3"
async-trait = "0.1"
schemars = "0.8"
derive_builder = "0.12"
fantoccini = { version = "0.19", default-features = false, features = ["rustls-tls"] }
