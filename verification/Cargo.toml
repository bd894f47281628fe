[package]
name = "escrow"
version = "0.1.0"
edition = "2021"
publish = false

[dependencies]
url = "=2.5.8"
chrono = "=0.4.45"
which = "=8.0.6"
serde = { version = "=1.0.229", features = ["derive"] }
serde_json = "=1.0.154"
toml = "=1.1.8"
fs4 = { version = "=1.1.0", features = ["sync"] }
directories = "=6.0.0"
clap = { version = "4", features = ["derive"] }
quick-xml = { version = "*", features = ["serialize"] }

[dev-dependencies]
tempfile = "=3.27.0"
