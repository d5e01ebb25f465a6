[package]
name = "neviraide_core"
version = "0.1.0"
edition = "2021"
publish = false

[dependencies]
nvim-oxi = { version = "=0.6.0", features = ["neovim-0-10", "libuv"] }
serde = { version = "=1.0.229", features = ["derive"] }
thiserror = "=2.0.21"
