[package]
name = "klh"
version = "0.1.0"
edition = "2021"
publish = false

[dependencies]
bson = "2"
crossbeam-channel = "0.5"
iced = "0.2"
iced_native = "0.3"
log = "0.4"
serde = { version = "1", features = ["derive"] }
simplelog = "0.12"
termion = "1"
tokio = { version = "1", features = ["rt-multi-thread", "macros", "sync"] }
