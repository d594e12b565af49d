[package]
name = "termlibs"
version = "0.1.0"
edition = "2021"
publish = false

[dependencies]
anyhow = "*"
chrono = "*"
comrak = { version = "=0.55.0", default-features = false }
fern = "*"
log = "*"
mime = "=0.3.17"
octocrab = "=0.43.0"
serde_json = "*"
shell-quote = "=0.8.0"
tera = "=1.20.1"
tokio = { version = "*", features = ["macros", "rt-multi-thread", "fs"] }
url = "=2.5.8"
