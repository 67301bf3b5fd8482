[package]
name = "git_home"
version = "0.1.0"
edition = "2021"
publish = false

[dependencies]
chrono = "0.4"
edit = "0.1"
git2 = { version = "*", default-features = false }
