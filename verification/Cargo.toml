[package]
name = "atproto_oauth"
version = "0.1.0"
edition = "2021"
publish = false

[dependencies]
oauth2 = { version = "5", default-features = false }
open = "5"
rand = "0.8"
reqwest = { version = "0.12", features = ["blocking", "json"] }
serde = { version = "1", features = ["derive"] }
serde_json = "1"
serde_path_to_error = "0.1"
thiserror = "2"
