[package]
name = "caliaconf"
version = "0.1.0"
edition = "2021"
publish = false

[dependencies]
seed = "0.6"
web-sys = { version = "0.3", features = ["Window", "ScrollToOptions", "ScrollBehavior"] }
serde = { version = "1", features = ["derive"] }
uuid = { version = "0.8", features = ["serde"] }
enclose = "1"
