[package]
name = "apc1-core"
version = "0.1.0"
edition = "2021"
publish = false

[dependencies]
anyhow = "1"
clap = { version = "4", features = ["derive", "env"] }
embedded-hal = "1"
i2cdev = "0.6"
sqlx = { version = "0.8", default-features = false, features = ["postgres", "runtime-tokio", "time", "migrate"] }
thiserror = "1"
time = "0.3"
tokio = { version = "1", features = ["rt-multi-thread", "macros", "sync", "time"] }
tracing = "0.1"
tracing-subscriber = "0.3"
