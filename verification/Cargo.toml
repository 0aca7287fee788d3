[package]
name = "reqtui"
version = "0.1.0"
edition = "2021"
publish = false

[dependencies]
ratatui = "*"
ratatui-textarea = "*"
tui-input = "*"
throbber-widgets-tui = "*"
regex = "*"
indexmap = { version = "*", features = ["serde"] }
serde = { version = "*", features = ["derive"] }
serde_json = "*"
directories = "*"
tokio = { version = "*", features = ["full"] }
futures = "*"
reqwest = { version = "0.12", default-features = false, features = ["rustls-tls"] }
