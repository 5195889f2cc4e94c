[package]
name = "hot_reload"
version = "0.1.0"
edition = "2021"
publish = false

[dependencies]
anyhow = "1"
console = "*"
dialoguer = "*"
indicatif = "*"
notify-debouncer-mini = "*"
pathdiff = "0.2"
tokio = { version = "1", features = ["full"] }
