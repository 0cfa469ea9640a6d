[package]
name = "edma"
version = "0.1.0"
edition = "2021"
publish = false

[dependencies]
uuid = "=1.29.1"
path-absolutize = "=3.1.1"
base64 = "=0.21.7"
serde_json = "=1.0.154"
structopt = "=0.3.26"
anyhow = "=1.0.104"
crossterm = "=0.25.0"
tui = { version = "=0.19.0", default-features = false, features = ["crossterm"] }
tui-textarea = "=0.2.4"
tui-tree-widget = "=0.11.0"
easy-cast = "=0.5.2"
syn = { version = "=2.0.119", features = ["full"] }
quote = "=1.0.47"
proc-macro2 = "=1.0.107"
