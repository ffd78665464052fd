[package]
name = "fbmark"
version = "0.1.0"
edition = "2021"
publish = false

[dependencies]
sublime_fuzzy = "0.7"
uuid = { version = "0.8", features = ["v4"] }
serde = { version = "1", features = ["derive"] }
rusqlite = "0.24"
tui = { version = "0.19", default-features = false, features = ["termion"] }
termion = "1.5"
clipboard = "0.5"
confy = "0.4"
open = "*"
reqwest = { version = "0.11", default-features = false, features = ["json", "rustls-tls"] }
tokio = { version = "1", features = ["macros", "rt-multi-thread"] }
tracing = "0.1"
tracing-subscriber = "0.2"
