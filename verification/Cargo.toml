[package]
name = "service_cleaner"
version = "0.1.0"
edition = "2021"
publish = false

[dependencies]
dptree = "=0.5.1"
log = "*"
pretty_env_logger = "=0.5.0"
sha256 = "=1.6.0"
takecell = "=0.1.1"
teloxide = { version = "=0.17.0", default-features = false, features = ["rustls", "ctrlc_handler"] }
tokio = { version = "*", features = ["macros", "rt-multi-thread"] }
url = "=2.5.8"
