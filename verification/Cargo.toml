[package]
name = "cp_tool"
version = "0.1.0"
edition = "2021"
publish = false

[dependencies]
url = "2"
reqwest = { version = "0.11", default-features = false, features = ["cookies", "rustls-tls"] }
tokio = { version = "1", features = ["macros", "rt-multi-thread"] }
structopt = "0.3"
serde = { version = "1", features = ["derive"] }
serde_json = "1"
thiserror = "1"
rpassword = "5"
open = "1"
async-trait = "0.1"
