[package]
name = "depdok"
version = "0.1.0"
edition = "2021"
publish = false

[dependencies]
ignore = "=0.4.33"
grep-regex = "=0.1.14"
grep-searcher = "=0.1.17"
nucleo-matcher = "=0.3.1"
serde = { version = "=1.0.229", features = ["derive"] }
serde_json = "=1.0.151"
chrono = { version = "=0.4.45", features = ["serde"] }
notify-debouncer-full = "=0.7.0"
fs_extra = "=1.3.0"
machine-uid = "=0.6.0"
keyring = "=4.2.0"
reqwest = { version = "=0.13.5", default-features = false, features = ["blocking", "json"] }
