[package]
name = "ds3os_loader"
version = "0.1.0"
edition = "2021"
publish = false

[dependencies]
anyhow = "=1.0.104"
bytes = "=1.12.1"
iced = "0.4"
iced_native = "0.5"
native-dialog = "0.6"
process-memory = "=0.5.0"
reqwest = { version = "=0.11.27", default-features = false, features = ["json", "blocking"] }
serde = { version = "=1.0.229", features = ["derive"] }
serde_json = "=1.0.154"
sys-locale = "=0.3.2"
sysinfo = "=0.29.11"

[dev-dependencies]
tea-soft = "=0.3.0"
