[package]
name = "worktrees"
version = "0.1.0"
edition = "2021"
publish = false

[dependencies]
anyhow = "*"
clap = { version = "*", features = ["derive"] }
gix = "*"
inquire = "*"
itertools = "*"
tempfile = "*"
tracing = "*"
tracing-subscriber = { version = "*", features = ["env-filter"] }
tracing-tree = "*"
