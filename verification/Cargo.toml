[package]
name = "dbus_router"
version = "0.11.0"
edition = "2021"
publish = false

[dependencies]
zvariant = "4"
anyhow = "1"
thiserror = "1"
tokio = { version = "1", features = ["full"] }
clap = { version = "4", features = ["derive"] }
serde = { version = "1", features = ["derive"] }
toml = "0.8"
tracing = "0.1"
tracing-subscriber = { version = "0.3", features = ["env-filter"] }
libc = "0.2"
glob = "0.3"
