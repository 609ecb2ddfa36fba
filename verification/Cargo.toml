[package]
name = "noteworthy"
version = "0.1.0"
edition = "2021"
publish = false

[dependencies]
async-std = "1.12"
crossterm = "0.25"
glob = "0.3"
lazy_static = "1.4"
rusqlite = "0.29"
serde_json = "1"
ssh2 = "0.9"
thiserror = "1"
tui = "0.19"
