[package]
name = "bltui"
version = "0.1.0"
edition = "2021"
publish = false

[dependencies]
tokio = { version = "1", default-features = false, features = ["sync", "rt-multi-thread", "macros", "time"] }
zbus = "3"
zvariant = "3"
btleplug = "0.11"
futures = "0.3"
crossterm = "0.25"
tui = "0.19"
tui-logger = "0.8"
log = "0.4"
clap = { version = "4", features = ["derive"] }
dirs = "5"
serde = { version = "1", features = ["derive"] }
toml = "0.7"
thiserror = "1"
lazy_static = "1"
time = { version = "0.3", features = ["formatting"] }
chrono = { version = "0.4", default-features = false, features = ["clock"] }
