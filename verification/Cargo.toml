[package]
name = "tome"
version = "0.1.0"
edition = "2021"
publish = false

[dependencies]
anyhow = "1"
arboard = "3"
clap = { version = "4", features = ["derive"] }
log = "0.4"
once_cell = "1"
quit = "2"
serde = { version = "1", features = ["derive"] }
serde_json = "1"
simplelog = "0.12"
syntect = { version = "5", default-features = false, features = ["default-fancy"] }
ureq = "2"
ureq_multipart = "1"
uuid = { version = "1", features = ["v5"] }
void = "1"
