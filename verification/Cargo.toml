[package]
name = "notifications"
version = "0.1.0"
edition = "2021"
publish = false

[dependencies]
serde = { version = "=1.0.229", features = ["derive"] }
serde_json = "=1.0.154"
serde_repr = "=0.1.21"
time = { version = "=0.3.55", features = ["serde", "formatting", "parsing", "macros"] }
url = { version = "=2.5.8", features = ["serde"] }
rand = "=0.8.8"
log = "=0.4.35"
notify-rust = "=4.18.2"
windows = { version = "=0.62.2", features = ["Data_Xml_Dom", "Foundation", "Foundation_Collections", "UI_Notifications"] }
