[package]
name = "verifyos_cli"
version = "0.1.0"
edition = "2021"
publish = false

[dependencies]
plist = "=1.10.3"
goblin = "=0.10.7"
zip = { version = "=9.2.2", default-features = false, features = ["deflate"] }
clap = { version = "=4.6.7", default-features = false, features = ["std", "derive", "help", "usage", "error-context"] }
serde = { version = "=1.0.229", features = ["derive"] }
serde_json = "=1.0.154"
toml = "=1.1.8"
comfy-table = { version = "=8.0.1", default-features = false, features = ["tty"] }
textwrap = "=0.16.4"
tempfile = "=3.27.0"
tokio = { version = "=1.54.1", features = ["rt-multi-thread", "macros", "io-std"] }
tower-lsp = "=0.20.0"
