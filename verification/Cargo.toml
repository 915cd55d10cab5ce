[package]
name = "rmup"
version = "0.1.0"
edition = "2021"
publish = false

[dependencies]
anyhow = "=1.0.104"
async-std = { version = "=1.13.2", features = ["attributes"] }
crossterm = { version = "=0.28.1", features = ["serde"] }
dirs-next = "=2.0.0"
getopts = "=0.2.24"
lofty = "=0.22.4"
map-macro = "=0.3.0"
mpris-server = "=0.8.1"
rand = "=0.8.8"
ratatui = { version = "=0.29.0", features = ["serde"] }
rodio = "=0.20.1"
serde = { version = "=1.0.229", features = ["derive"] }
serde_yml = "=0.0.12"
tui-textarea = "=0.7.0"
unicode-width = "=0.2.0"

[dev-dependencies]
regex = "=1.13.1"
