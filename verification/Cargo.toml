[package]
name = "trash_tool"
version = "0.1.0"
edition = "2021"
publish = false

[dependencies]
chrono = "=0.4.45"
clap = { version = "=4.6.7", features = ["derive"] }
colored = "=2.2.0"
dirs = "=7.0.0"
humansize = "=2.1.3"
mountpoints = "=0.2.1"
percent-encoding = "=2.3.2"
shlex = "=1.3.0"
skim = "=5.8.0"
term_grid = "=0.2.0"
term_size = "=0.3.2"
thiserror = "=2.0.21"
users = "=0.11.0"

[dev-dependencies]
regex = "=1.13.1"
tempfile = "=3.27.0"
