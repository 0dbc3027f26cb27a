[package]
name = "github_timeline"
version = "0.1.0"
edition = "2021"
publish = false

[dependencies]
async-trait = "=0.1.92"
chrono = "=0.4.45"
itertools = "=0.12.1"
octocrab = "=0.40.0"
tokio = { version = "1", features = ["macros", "rt-multi-thread"] }
