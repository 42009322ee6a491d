[package]
name = "migchat"
version = "0.1.0"
edition = "2021"
publish = false

[dependencies]
bytes = "=1.12.1"
chrono = "=0.4.45"
clap = "=2.34.0"
config = "=0.11.0"
crossterm = "=0.20.0"
env_logger = "=0.8.4"
futures = "=0.3.34"
fxhash = "=0.2.1"
jammdb = "=0.5.0"
log = "=0.4.34"
prost = "=0.7.0"
rand = "=0.8.8"
textwrap = "=0.13.4"
tokio = { version = "=1.54.1", features = ["full"] }
tokio-stream = "=0.1.19"
tonic = "=0.4.3"
tui = { version = "=0.16.0", default-features = false, features = ["crossterm"] }
tui-logger = "=0.6.6"
