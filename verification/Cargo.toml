[package]
name = "graceful"
version = "0.1.0"
edition = "2021"
publish = false

[dependencies]
nix = { version = "*", features = ["signal"] }
winapi = { version = "0.3", features = ["consoleapi", "minwindef"] }
