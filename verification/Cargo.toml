[package]
name = "git_source"
version = "0.1.0"
edition = "2021"
publish = false

[dependencies]
git2 = { version = "=0.21.0", default-features = false, features = ["cred"] }
url = "=2.5.8"
rustc-serialize = "=0.3.25"
