[package]
name = "bazaar_watch"
version = "0.1.0"
edition = "2021"
publish = false

[dependencies]
colored = "*"
crossterm = "*"
futures = "0.3"
reqwest = { version = "*", features = ["json"] }
serde = { version = "1", features = ["derive"] }
serde_derive = "1"
textplots = "*"
tokio = { version = "1", features = ["macros", "rt-multi-thread", "signal", "time"] }
