[package]
name = "json_dir_list"
version = "0.1.0"
edition = "2021"
publish = false

[dependencies]
users = "*"
gethostname = "*"
chrono = "*"

[dev-dependencies]
serde_json = "*"
