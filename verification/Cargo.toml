[package]
name = "link_cleaner"
version = "0.1.0"
edition = "2021"
publish = false

[dependencies]
regex = "=1.13.1"
url = "=2.5.8"
teloxide = { version = "0.12", default-features = false, features = ["macros", "ctrlc_handler", "rustls"] }
takecell = "=0.1.1"
tokio = { version = "1", features = ["rt-multi-thread", "macros"] }
dptree = "0.3"
dotenv = "0.15"
log = "0.4"
pretty_env_logger = "0.5"
